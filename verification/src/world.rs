//! The mutable game state every rules action works on.

use vstd::prelude::*;
use crate::character::Character;
use crate::combat::CombatState;
use crate::effects::ActiveEffect;
use crate::error::RulesError;
use crate::netrunning::state::NetrunState;
use crate::types::EntityId;

verus! {

/// `i` is the first position of `s` holding the character with id `id`.
pub open spec fn first_character_index(s: Seq<Character>, id: EntityId, i: int) -> bool {
    &&& 0 <= i < s.len()
    &&& s[i].id.0 == id.0
    &&& forall|j: int| 0 <= j < i ==> (#[trigger] s[j]).id.0 != id.0
}

/// The game world: the player character, the other characters, the netrun
/// in progress (if any) and the combat in progress (if any).
#[derive(Clone, Debug, PartialEq, Eq)]
pub struct World {
    pub pc: Character,
    pub npcs: Vec<Character>,
    pub netrun: Option<NetrunState>,
    pub combat: Option<CombatState>,
}

/// `old` and `new` hold the same characters.
pub open spec fn same_characters(old: World, new: World) -> bool {
    new.pc == old.pc && new.npcs@ == old.npcs@
}

/// `new` holds the characters of `old`, with the character `id` replaced
/// by `c` (the player character first, else the first other character with
/// that id; nothing changes when there is none).
pub open spec fn character_replaced(old: World, new: World, id: EntityId, c: Character) -> bool {
    if old.pc.id.0 == id.0 {
        new.pc == c && new.npcs@ == old.npcs@
    } else {
        new.pc == old.pc && (if exists|i: int| first_character_index(old.npcs@, id, i) {
            new.npcs@ == old.npcs@.update(
                choose|i: int| first_character_index(old.npcs@, id, i),
                c,
            )
        } else {
            new.npcs@ == old.npcs@
        })
    }
}

/// Replacing a character by one with the same id leaves every lookup of
/// another id as it was, and makes the lookup of that id give the new one.
pub proof fn lemma_replace_keeps_lookup(old: World, new: World, id: EntityId, c: Character, tid: EntityId)
    requires
        old.spec_entity(id) is Some,
        c.id == old.spec_entity(id).unwrap().id,
        character_replaced(old, new, id, c),
    ensures
        tid.0 == id.0 ==> new.spec_entity(tid) == Some(c),
        tid.0 != id.0 ==> new.spec_entity(tid) == old.spec_entity(tid),
{
    if old.pc.id.0 != id.0 {
        let i = choose|i: int| first_character_index(old.npcs@, id, i);
        assert(first_character_index(old.npcs@, id, i));
        assert forall|k: int| 0 <= k < new.npcs@.len() implies (#[trigger] new.npcs@[k]).id == old.npcs@[k].id by {
        }
        if tid.0 == id.0 {
            assert(first_character_index(new.npcs@, tid, i));
            assert forall|k: int| #[trigger] first_character_index(new.npcs@, tid, k) implies k == i by {
                if k < i {
                    assert(new.npcs@[k].id == old.npcs@[k].id);
                } else if k > i {
                    assert(new.npcs@[i].id.0 == tid.0);
                }
            }
        } else {
            assert(new.npcs@.len() == old.npcs@.len());
            assert forall|k: int| #[trigger] first_character_index(new.npcs@, tid, k) implies first_character_index(old.npcs@, tid, k) by {
                assert(new.npcs@[k].id == old.npcs@[k].id);
                assert forall|j: int| 0 <= j < k implies (#[trigger] old.npcs@[j]).id.0 != tid.0 by {
                    assert(new.npcs@[j].id == old.npcs@[j].id);
                    assert(new.npcs@[j].id.0 != tid.0);
                }
            }
            assert forall|k: int| #[trigger] first_character_index(old.npcs@, tid, k) implies first_character_index(new.npcs@, tid, k) by {
                assert(new.npcs@[k].id == old.npcs@[k].id);
                assert forall|j: int| 0 <= j < k implies (#[trigger] new.npcs@[j]).id.0 != tid.0 by {
                    assert(new.npcs@[j].id == old.npcs@[j].id);
                    assert(old.npcs@[j].id.0 != tid.0);
                }
            }
            if exists|k: int| first_character_index(old.npcs@, tid, k) {
                let k = choose|k: int| first_character_index(old.npcs@, tid, k);
                assert(first_character_index(new.npcs@, tid, k));
                assert(k != i);
                assert(new.npcs@[k] == old.npcs@[k]);
            }
        }
    }
}

impl World {
    /// The character with id `id`: the player character first, then the
    /// first other character with that id.
    pub open spec fn spec_entity(self, id: EntityId) -> Option<Character> {
        if self.pc.id.0 == id.0 {
            Some(self.pc)
        } else if exists|i: int| first_character_index(self.npcs@, id, i) {
            Some(self.npcs@[choose|i: int| first_character_index(self.npcs@, id, i)])
        } else {
            None
        }
    }

    /// A world with this player character and nothing else going on.
    pub fn new(pc: Character) -> (w: World)
        ensures
            w.pc == pc,
            w.npcs@.len() == 0,
            w.netrun is None,
            w.combat is None,
    {
        World { pc, npcs: Vec::new(), netrun: None, combat: None }
    }

    /// Position of the first other character with id `id`.
    fn npc_position(&self, id: EntityId) -> (r: Option<usize>)
        ensures
            match r {
                Some(i) => first_character_index(self.npcs@, id, i as int),
                None => !exists|i: int| first_character_index(self.npcs@, id, i),
            },
            r is Some ==> forall|k: int| #[trigger]
                first_character_index(self.npcs@, id, k) ==> k == r.unwrap(),
    {
        let mut i: usize = 0;
        while i < self.npcs.len()
            invariant
                i <= self.npcs@.len(),
                forall|j: int| 0 <= j < i ==> (#[trigger] self.npcs@[j]).id.0 != id.0,
            decreases self.npcs@.len() - i,
        {
            if self.npcs[i].id.0 == id.0 {
                proof {
                    assert forall|k: int| #[trigger]
                        first_character_index(self.npcs@, id, k) implies k == i by {
                        if k < i {
                            assert(self.npcs@[k].id.0 != id.0);
                        } else if k > i {
                            assert(self.npcs@[i as int].id.0 != id.0);
                        }
                    }
                }
                return Some(i);
            }
            i = i + 1;
        }
        proof {
            assert forall|k: int| !first_character_index(self.npcs@, id, k) by {
                if 0 <= k < self.npcs@.len() {
                    assert(self.npcs@[k].id.0 != id.0);
                }
            }
        }
        None
    }

    /// The character with id `id`, if any.
    pub fn entity(&self, id: EntityId) -> (r: Option<&Character>)
        ensures
            match r {
                Some(c) => self.spec_entity(id) == Some(*c),
                None => self.spec_entity(id) is None,
            },
    {
        if self.pc.id.0 == id.0 {
            return Some(&self.pc);
        }
        match self.npc_position(id) {
            Some(i) => Some(&self.npcs[i]),
            None => None,
        }
    }

    /// Spend `amount` LUCK of the character `id`, then read the INT and
    /// Interface rank (Role Ability rank) that its checks use.
    ///
    /// Refuses when the character is missing, or holds less LUCK; the world
    /// is then unchanged.
    pub fn spend_luck_and_read(&mut self, id: EntityId, amount: u8) -> (r: Result<
        (i16, i16),
        RulesError,
    >)
        ensures
            match old(self).spec_entity(id) {
                None => r == Err::<(i16, i16), RulesError>(RulesError::EntityNotFound(id))
                    && *final(self) == *old(self),
                Some(c) => if amount > c.luck_pool {
                    r == Err::<(i16, i16), RulesError>(
                        RulesError::InsufficientLuck { requested: amount, available: c.luck_pool },
                    ) && *final(self) == *old(self)
                } else {
                    &&& r == Ok::<(i16, i16), RulesError>(
                        (c.spec_current_int(), c.role_rank as i16),
                    )
                    &&& character_replaced(*old(self), *final(self), id, c.after_luck(amount))
                    &&& final(self).netrun == old(self).netrun
                    &&& final(self).combat == old(self).combat
                },
            },
    {
        if self.pc.id.0 == id.0 {
            let res = self.pc.spend_luck(amount);
            match res {
                Ok(()) => {
                    return Ok((self.pc.current_int(), self.pc.role_rank as i16));
                },
                Err(e) => {
                    return Err(e);
                },
            }
        }
        match self.npc_position(id) {
            None => Err(RulesError::EntityNotFound(id)),
            Some(i) => {
                if amount > self.npcs[i].luck_pool {
                    return Err(
                        RulesError::InsufficientLuck {
                            requested: amount,
                            available: self.npcs[i].luck_pool,
                        },
                    );
                }
                let ghost before = self.npcs@;
                let res = self.npcs[i].spend_luck(amount);
                proof {
                    assert(first_character_index(before, id, i as int));
                    assert(self.npcs@ =~= before.update(i as int, self.npcs@[i as int]));
                }
                match res {
                    Ok(()) => Ok((self.npcs[i].current_int(), self.npcs[i].role_rank as i16)),
                    Err(e) => Err(e),
                }
            },
        }
    }

    /// The character `id` takes `damage` points of brain damage; nothing
    /// happens when there is no such character.
    pub fn damage_entity(&mut self, id: EntityId, damage: i16)
        requires
            damage >= 0,
        ensures
            match old(self).spec_entity(id) {
                None => *final(self) == *old(self),
                Some(c) => character_replaced(*old(self), *final(self), id, c.after_damage(damage))
                    && final(self).netrun == old(self).netrun && final(self).combat == old(
                    self,
                ).combat,
            },
    {
        if self.pc.id.0 == id.0 {
            self.pc.take_damage(damage);
            return;
        }
        match self.npc_position(id) {
            None => {},
            Some(i) => {
                let ghost before = self.npcs@;
                self.npcs[i].take_damage(damage);
                proof {
                    assert(first_character_index(before, id, i as int));
                    assert(self.npcs@ =~= before.update(i as int, self.npcs@[i as int]));
                }
            },
        }
    }

    /// Put `effect` on top of the effect stack of the character `id`, or
    /// refuse when there is no such character.
    pub fn add_effect(&mut self, id: EntityId, effect: ActiveEffect) -> (r: Result<(), RulesError>)
        ensures
            match old(self).spec_entity(id) {
                None => r == Err::<(), RulesError>(RulesError::EntityNotFound(id)) && *final(self)
                    == *old(self),
                Some(c) => {
                    &&& r is Ok
                    &&& exists|c2: Character|
                        character_replaced(*old(self), *final(self), id, c2) && c2 == (Character {
                            effects: c2.effects,
                            ..c
                        }) && c2.effects.effects@ == c.effects.effects@.push(effect)
                    &&& final(self).netrun == old(self).netrun
                    &&& final(self).combat == old(self).combat
                },
            },
    {
        if self.pc.id.0 == id.0 {
            self.pc.effects.add(effect);
            proof {
                assert(character_replaced(*old(self), *self, id, self.pc));
            }
            return Ok(());
        }
        match self.npc_position(id) {
            None => Err(RulesError::EntityNotFound(id)),
            Some(i) => {
                let ghost before = self.npcs@;
                self.npcs[i].effects.add(effect);
                proof {
                    assert(first_character_index(before, id, i as int));
                    assert(self.npcs@ =~= before.update(i as int, self.npcs@[i as int]));
                    let c2 = self.npcs@[i as int];
                    assert(character_replaced(*old(self), *self, id, c2));
                }
                Ok(())
            },
        }
    }
}

} // verus!

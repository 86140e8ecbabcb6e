//! Catalogs of content records (Demons, Black ICE, programs), looked up by slug.

use vstd::prelude::*;
use crate::effects::ProgramId;
use crate::types::{Eurobucks, PriceTier};

verus! {

/// Content records keyed by slug. A lookup returns the first entry whose
/// key equals the slug.
#[derive(Clone, Debug, PartialEq, Eq)]
pub struct Catalog<T> {
    pub entries: Vec<(String, T)>,
}

/// The index of the first entry of `s` keyed by `k`.
pub open spec fn first_key_index<T>(s: Seq<(String, T)>, k: Seq<char>, i: int) -> bool {
    &&& 0 <= i < s.len()
    &&& s[i].0@ == k
    &&& forall|j: int| 0 <= j < i ==> (#[trigger] s[j]).0@ != k
}

impl<T> Catalog<T> {
    /// The record stored under `slug`, if any.
    pub open spec fn lookup(self, slug: Seq<char>) -> Option<T> {
        if exists|i: int| first_key_index(self.entries@, slug, i) {
            Some(self.entries@[choose|i: int| first_key_index(self.entries@, slug, i)].1)
        } else {
            None
        }
    }

    /// No slug is stored twice.
    pub open spec fn keys_distinct(self) -> bool {
        forall|i: int, j: int|
            0 <= i < j < self.entries@.len() ==> (#[trigger] self.entries@[i]).0@ != (#[trigger] self.entries@[j]).0@
    }

    /// A catalog holding these entries, in this order; as in a map keyed by
    /// slug, no slug may be given twice.
    pub fn new(entries: Vec<(String, T)>) -> (r: Catalog<T>)
        requires
            forall|i: int, j: int|
                0 <= i < j < entries@.len() ==> (#[trigger] entries@[i]).0@ != (#[trigger] entries@[j]).0@,
        ensures
            r.entries@ == entries@,
            r.keys_distinct(),
    {
        Catalog { entries }
    }

    /// With distinct slugs, the record stored under a slug is the one entry
    /// that carries it, and a slug no entry carries finds nothing.
    pub proof fn lemma_lookup_distinct(self, k: int)
        requires
            self.keys_distinct(),
            0 <= k < self.entries@.len(),
        ensures
            self.lookup(self.entries@[k].0@) == Some(self.entries@[k].1),
    {
        let s = self.entries@;
        let key = s[k].0@;
        assert forall|j: int| 0 <= j < k implies (#[trigger] s[j]).0@ != key by {
            assert(s[j].0@ != s[k].0@);
        }
        assert(first_key_index(s, key, k));
        assert forall|m: int| #[trigger] first_key_index(s, key, m) implies m == k by {
            if m < k {
                assert(s[m].0@ != key);
            } else if m > k {
                assert(s[k].0@ != key);
            }
        }
    }

    /// Position of the record stored under `slug`.
    fn position(&self, slug: &String) -> (r: Option<usize>)
        ensures
            match r {
                Some(i) => first_key_index(self.entries@, slug@, i as int),
                None => forall|j: int|
                    0 <= j < self.entries@.len() ==> (#[trigger] self.entries@[j]).0@ != slug@,
            },
    {
        let mut i: usize = 0;
        while i < self.entries.len()
            invariant
                i <= self.entries@.len(),
                forall|j: int| 0 <= j < i ==> (#[trigger] self.entries@[j]).0@ != slug@,
            decreases self.entries@.len() - i,
        {
            if self.entries[i].0 == *slug {
                return Some(i);
            }
            i = i + 1;
        }
        None
    }

    /// The record stored under `slug`, if any.
    pub fn get(&self, slug: &String) -> (r: Option<&T>)
        ensures
            match r {
                Some(t) => self.lookup(slug@) == Some(*t),
                None => self.lookup(slug@) is None,
            },
    {
        match self.position(slug) {
            Some(i) => {
                proof {
                    assert forall|k: int| #[trigger]
                        first_key_index(self.entries@, slug@, k) implies k == i by {
                        if k < i {
                            assert(self.entries@[k].0@ != slug@);
                        } else if k > i {
                            assert(self.entries@[i as int].0@ != slug@);
                        }
                    }
                }
                Some(&self.entries[i].1)
            },
            None => None,
        }
    }

    /// Whether a record is stored under `slug`.
    pub fn contains_key(&self, slug: &String) -> (r: bool)
        ensures
            r == (self.lookup(slug@) is Some),
    {
        self.get(slug).is_some()
    }
}

/// Catalog slug of a Demon type.
#[derive(Clone, Debug, PartialEq, Eq, Hash)]
pub struct DemonId(pub String);

/// Catalog slug of a Black ICE type.
#[derive(Clone, Debug, PartialEq, Eq, Hash)]
pub struct BlackIceId(pub String);

impl DemonId {
    /// A copy of this id.
    pub fn duplicate(&self) -> (r: DemonId)
        ensures
            r == *self,
    {
        DemonId(self.0.clone())
    }
}

impl BlackIceId {
    /// A copy of this id.
    pub fn duplicate(&self) -> (r: BlackIceId)
        ensures
            r == *self,
    {
        BlackIceId(self.0.clone())
    }
}

/// A Demon's catalog row.
#[derive(Clone, Debug, PartialEq, Eq)]
pub struct Demon {
    pub id: DemonId,
    pub display_name: String,
    pub rez: u16,
    pub interface: u8,
    pub net_actions_per_turn: u8,
    pub combat_number: u8,
    pub icon: String,
}

/// Kind of die.
#[derive(Clone, Copy, Debug, PartialEq, Eq, Hash, Structural)]
pub enum DieKind {
    D6,
    D10,
}

/// `n` dice of one kind.
#[derive(Clone, Copy, Debug, PartialEq, Eq, Hash, Structural)]
pub struct DiceSpec {
    pub n: u8,
    pub die: DieKind,
}

/// The three kinds of Black ICE.
#[derive(Clone, Copy, Debug, PartialEq, Eq, Hash, Structural)]
pub enum BlackIceClass {
    AntiPersonnel,
    AntiProgram,
    Demon,
}

/// What a Black ICE does when it hits.
#[derive(Clone, Copy, Debug, PartialEq, Eq, Hash, Structural)]
pub enum BlackIceEffect {
    /// Asp: destroys a random installed program.
    DestroyRandomProgram,
    /// Giant: brain damage, then a forced unsafe jack-out.
    BrainDamageAndForceJackOut { dice: DiceSpec },
    /// Hellhound: brain damage and a burning cyberdeck.
    BrainDamageAndCyberdeckFire { dice: DiceSpec, burn_damage_per_turn_end: u8, cannot_stack: bool },
    /// Kraken: brain damage and no safe jack-out.
    BrainDamageAndJackOutLock { dice: DiceSpec },
    /// Liche: INT, REF and DEX penalty.
    StatPenaltyIntRefDex { dice: DiceSpec },
    /// Raven: derezzes a random Defender, then brain damage.
    DerezzRandomDefenderAndBrainDamage { dice: DiceSpec },
    /// Scorpion: MOVE penalty.
    StatPenaltyMove { dice: DiceSpec },
    /// Skunk: penalty to Slide checks.
    SlideCheckPenalty { penalty: u8 },
    /// Wisp: brain damage and one NET Action less.
    BrainDamageAndNetActionPenalty { dice: DiceSpec, penalty: u8 },
    /// Dragon, Killer, Sabertooth: program damage; a derezz destroys.
    ProgramDamageDestroyOnDerezz { dice: DiceSpec },
}

/// A Black ICE's catalog row.
#[derive(Clone, Debug, PartialEq, Eq)]
pub struct BlackIce {
    pub id: BlackIceId,
    pub display_name: String,
    pub class: BlackIceClass,
    pub per: u8,
    pub spd: u8,
    pub atk: u8,
    pub def: u8,
    pub rez: u8,
    pub effect: BlackIceEffect,
    pub icon: String,
    pub price: PriceTier,
    pub price_eb: Eurobucks,
}

/// The program classes.
#[derive(Clone, Copy, Debug, PartialEq, Eq, Hash, Structural)]
pub enum ProgramClass {
    Booster,
    Defender,
    AntiPersonnelAttacker,
    AntiProgramAttacker,
}

/// The checks a Booster can improve.
#[derive(Clone, Copy, Debug, PartialEq, Eq, Hash, Structural)]
pub enum BoostableCheck {
    Speed,
    Cloak,
    Pathfinder,
    Backdoor,
}

/// What a program does.
#[derive(Clone, Copy, Debug, PartialEq, Eq, Hash, Structural)]
pub enum ProgramEffect {
    /// Booster: add `by` to a check.
    BoostCheck { check: BoostableCheck, by: i8 },
    /// Defender (Armor): reduce Black ICE brain damage.
    BlockBlackIceDamage { reduction: u8 },
    /// Defender (Flak): non-Black-ICE Attackers have ATK 0.
    NullifyAttackerAtk,
    /// Defender (Shield): stop the first non-Black-ICE effect.
    StopFirstNonBlackIceEffect,
    /// Banhammer, Sword: damage to programs or Black ICE.
    AnyAttackerProgramDamage { dice_vs_non_black_ice: DiceSpec, dice_vs_black_ice: DiceSpec },
    /// Hellbolt: brain damage and a burn.
    BrainDamageWithBurn { dice: DiceSpec, burn_per_turn: u8 },
    /// Vrizzbolt: brain damage and one NET Action less.
    BrainDamageAndNetActionPenalty { dice: DiceSpec, penalty: u8 },
    /// DeckKRASH: forced unsafe jack-out.
    ForceUnsafeJackOut,
    /// Nervescrub: stat drain.
    NervescrubStatDrain { dice: DiceSpec },
    /// Poison Flatline: destroys a random installed program.
    DestroyRandomInstalledProgram,
    /// Superglue: no jack-out and no progress for a while.
    BlockJackOutAndProgress { dice: DiceSpec },
}

/// A program's catalog row.
#[derive(Clone, Debug, PartialEq, Eq)]
pub struct Program {
    pub id: ProgramId,
    pub display_name: String,
    pub class: ProgramClass,
    pub atk: u8,
    pub def: u8,
    pub rez: u8,
    pub effect: ProgramEffect,
    pub icon: String,
    pub price: PriceTier,
    pub price_eb: Eurobucks,
    pub slot_cost: u8,
}

} // verus!

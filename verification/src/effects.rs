//! Ongoing effects placed on characters, and the program identifiers they
//! can come from.

use vstd::prelude::*;
use crate::catalog::BoostableCheck;
use crate::types::{EffectInstanceId, Stat};

verus! {

/// Catalog slug of a program, e.g. `"eraser"`.
#[derive(Clone, Debug, PartialEq, Eq, Hash)]
pub struct ProgramId(pub String);

impl ProgramId {
    /// A copy of this id.
    pub fn duplicate(&self) -> (r: ProgramId)
        ensures
            r == *self,
    {
        ProgramId(self.0.clone())
    }
}

/// One mechanical modifier an effect contributes.
#[derive(Clone, Debug, PartialEq, Eq)]
pub enum EffectModifier {
    /// Add `by` to a STAT.
    StatBonus { stat: Stat, by: i8 },
    /// Add `by` to one kind of Interface check.
    NetrunCheckBonus { check: BoostableCheck, by: i8 },
    /// Reduce Black ICE brain damage by this much.
    NetrunBrainDamageReduction(u8),
    /// Non-Black-ICE Attacker programs have their ATK set to 0.
    NetrunAttackerAtkNullified,
    /// The first non-Black-ICE program effect is stopped.
    NetrunFirstEffectBlocked,
}

/// Where an effect comes from.
#[derive(Clone, Debug, PartialEq, Eq)]
pub enum EffectSource {
    /// A rezzed program.
    Program(ProgramId),
    /// Anything else.
    Other(String),
}

/// How long an effect lasts.
#[derive(Clone, Copy, Debug, PartialEq, Eq, Structural)]
pub enum EffectDuration {
    /// Until the character jacks out of the current netrun.
    UntilEndOfNetrun,
    /// A number of rounds.
    Rounds(u16),
    /// Until removed.
    Permanent,
}

/// One effect on a character's stack.
#[derive(Clone, Debug, PartialEq, Eq)]
pub struct ActiveEffect {
    pub id: EffectInstanceId,
    pub source: EffectSource,
    pub modifiers: Vec<EffectModifier>,
    pub duration: EffectDuration,
}

/// The ordered effects on a character.
#[derive(Clone, Debug, PartialEq, Eq)]
pub struct EffectStack {
    pub effects: Vec<ActiveEffect>,
}

impl EffectStack {
    /// An empty stack.
    pub fn new() -> (r: EffectStack)
        ensures
            r.effects@ == Seq::<ActiveEffect>::empty(),
    {
        EffectStack { effects: Vec::new() }
    }

    /// Put an effect on top of the stack.
    pub fn add(&mut self, effect: ActiveEffect)
        ensures
            final(self).effects@ == old(self).effects@.push(effect),
    {
        self.effects.push(effect);
    }
}

} // verus!

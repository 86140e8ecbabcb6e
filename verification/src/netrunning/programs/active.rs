//! Activating a Booster or Defender program.
//!
//! The program is rezzed with its full REZ, and its passive modifiers are
//! put on the Netrunner's effect stack as one effect that lasts until the
//! end of the netrun. The once-per-Round limit is the caller's to enforce.

use vstd::prelude::*;
use crate::catalog::{BoostableCheck, Catalog, Program, ProgramClass, ProgramEffect};
use crate::character::Character;
use crate::effects::{ActiveEffect, EffectDuration, EffectModifier, EffectSource, ProgramId};
use crate::error::RulesError;
use crate::netrunning::state::{spec_instance_bits, NetrunState, ProgramInstanceId, RezzedProgram};
use crate::types::{EffectInstanceId, EntityId, Stat};
use crate::world::{character_replaced, World};

verus! {

/// A request to activate a Booster or Defender.
#[derive(Debug)]
pub struct ActivateProgram {
    pub netrunner: EntityId,
    /// Catalog slug of the program.
    pub program: ProgramId,
}

/// A successful activation.
#[derive(Debug)]
pub struct ActivationOutcome {
    /// The new rezzed instance.
    pub instance_id: ProgramInstanceId,
    /// The effects put on the Netrunner's stack.
    pub effects_added: Vec<EffectInstanceId>,
}

/// The name of a program class, as its variant is spelled.
pub open spec fn spec_class_name(class: ProgramClass) -> Seq<char> {
    match class {
        ProgramClass::Booster => "Booster"@,
        ProgramClass::Defender => "Defender"@,
        ProgramClass::AntiPersonnelAttacker => "AntiPersonnelAttacker"@,
        ProgramClass::AntiProgramAttacker => "AntiProgramAttacker"@,
    }
}

/// The name of a program class, as its variant is spelled.
pub fn class_name(class: ProgramClass) -> (s: String)
    ensures
        s@ == spec_class_name(class),
{
    match class {
        ProgramClass::Booster => String::from_str("Booster"),
        ProgramClass::Defender => String::from_str("Defender"),
        ProgramClass::AntiPersonnelAttacker => String::from_str("AntiPersonnelAttacker"),
        ProgramClass::AntiProgramAttacker => String::from_str("AntiProgramAttacker"),
    }
}

/// The modifiers a rezzed Booster or Defender lends. A Speed boost is a
/// MOVE bonus (NET speed); the other boosts are Interface check bonuses.
pub open spec fn spec_effect_modifiers(effect: ProgramEffect) -> Seq<EffectModifier> {
    match effect {
        ProgramEffect::BoostCheck { check, by } => if check == BoostableCheck::Speed {
            seq![EffectModifier::StatBonus { stat: Stat::Move, by }]
        } else {
            seq![EffectModifier::NetrunCheckBonus { check, by }]
        },
        ProgramEffect::BlockBlackIceDamage { reduction } => seq![
            EffectModifier::NetrunBrainDamageReduction(reduction),
        ],
        ProgramEffect::NullifyAttackerAtk => seq![EffectModifier::NetrunAttackerAtkNullified],
        ProgramEffect::StopFirstNonBlackIceEffect => seq![EffectModifier::NetrunFirstEffectBlocked],
        _ => Seq::empty(),
    }
}

/// A Booster that boosts NET Speed lends a MOVE bonus of the same size; one
/// that boosts any other check lends a bonus to that check, of the same size.
pub proof fn lemma_boost_check_modifiers(check: BoostableCheck, by: i8)
    ensures
        check == BoostableCheck::Speed ==> spec_effect_modifiers(ProgramEffect::BoostCheck { check, by }) == seq![
            EffectModifier::StatBonus { stat: Stat::Move, by },
        ],
        check != BoostableCheck::Speed ==> spec_effect_modifiers(ProgramEffect::BoostCheck { check, by }) == seq![
            EffectModifier::NetrunCheckBonus { check, by },
        ],
{
}

/// The modifiers a rezzed Booster or Defender lends.
pub fn effect_modifiers_for(effect: &ProgramEffect) -> (v: Vec<EffectModifier>)
    ensures
        v@ == spec_effect_modifiers(*effect),
        *effect matches ProgramEffect::BoostCheck { check, by } ==> (check == BoostableCheck::Speed ==> v@
            == seq![EffectModifier::StatBonus { stat: Stat::Move, by }]) && (check != BoostableCheck::Speed ==> v@
            == seq![EffectModifier::NetrunCheckBonus { check, by }]),
{
    let mut v: Vec<EffectModifier> = Vec::new();
    match effect {
        ProgramEffect::BoostCheck { check, by } => {
            match check {
                BoostableCheck::Speed => v.push(EffectModifier::StatBonus { stat: Stat::Move, by: *by }),
                _ => v.push(EffectModifier::NetrunCheckBonus { check: *check, by: *by }),
            }
        },
        ProgramEffect::BlockBlackIceDamage { reduction } => {
            v.push(EffectModifier::NetrunBrainDamageReduction(*reduction));
        },
        ProgramEffect::NullifyAttackerAtk => v.push(EffectModifier::NetrunAttackerAtkNullified),
        ProgramEffect::StopFirstNonBlackIceEffect => v.push(EffectModifier::NetrunFirstEffectBlocked),
        _ => {},
    }
    proof {
        assert(v@ =~= spec_effect_modifiers(*effect));
    }
    v
}

/// The effect id tied to a rezzed program instance.
pub open spec fn spec_effect_id_for(instance: ProgramInstanceId) -> EffectInstanceId {
    EffectInstanceId(instance.0 ^ 0xEFF0_EFF0_EFF0_EFF0u128)
}

/// The effect id tied to a rezzed program instance.
pub fn effect_id_for(instance: ProgramInstanceId) -> (e: EffectInstanceId)
    ensures
        e == spec_effect_id_for(instance),
{
    EffectInstanceId(instance.0 ^ 0xEFF0_EFF0_EFF0_EFF0u128)
}

/// Whether Boosters and Defenders are of this class.
pub open spec fn is_passive(class: ProgramClass) -> bool {
    class == ProgramClass::Booster || class == ProgramClass::Defender
}

/// `new` is `old` with the program `program` rezzed at `rez` as instance
/// `id`, the next id of `old`'s counter.
pub open spec fn rezzed_next(old: NetrunState, new: NetrunState, program: ProgramId, rez: u8) -> bool {
    &&& new.counter() == old.counter() + 1
    &&& new.rezzed_programs@ == old.rezzed_programs@.push(
        RezzedProgram {
            instance_id: ProgramInstanceId(spec_instance_bits(new.counter())),
            program,
            current_rez: rez,
        },
    )
    &&& new == NetrunState {
        rezzed_programs: new.rezzed_programs,
        program_id_counter: new.program_id_counter,
        ..old
    }
}

/// `after` is `before` with one effect pushed: the effect of `program`
/// with id `id`, the modifiers `mods`, lasting until the end of the netrun.
pub open spec fn activation_effect_pushed(
    before: Seq<ActiveEffect>,
    after: Seq<ActiveEffect>,
    id: EffectInstanceId,
    program: ProgramId,
    mods: Seq<EffectModifier>,
) -> bool {
    &&& after.len() == before.len() + 1
    &&& after.drop_last() == before
    &&& after.last().id == id
    &&& after.last().source == EffectSource::Program(program)
    &&& after.last().modifiers@ == mods
    &&& after.last().duration == EffectDuration::UntilEndOfNetrun
}

/// Activate a Booster or Defender for the Netrunner.
///
/// Errors, in the order they are checked: the slug is not in the catalog
/// (`ProgramNotFound`); the program is an Attacker (`ProgramWrongClass`);
/// no netrun is active (`NoActiveNetrun`); the Netrunner is not in the
/// world (`EntityNotFound`, after the program was rezzed).
pub fn activate_booster_or_defender(
    world: &mut World,
    catalog: &Catalog<Program>,
    request: ActivateProgram,
) -> (r: Result<ActivationOutcome, RulesError>)
    requires
        old(world).netrun matches Some(nr) ==> nr.counter() < u64::MAX,
    ensures
        match catalog.lookup(request.program.0@) {
            None => r == Err::<ActivationOutcome, RulesError>(RulesError::ProgramNotFound(request.program))
                && *final(world) == *old(world),
            Some(p) => if !is_passive(p.class) {
                &&& r matches Err(RulesError::ProgramWrongClass { program, expected, got })
                &&& program == request.program
                &&& expected@ == "Booster or Defender"@
                &&& got@ == spec_class_name(p.class)
                &&& *final(world) == *old(world)
            } else {
                match old(world).netrun {
                    None => r == Err::<ActivationOutcome, RulesError>(RulesError::NoActiveNetrun)
                        && *final(world) == *old(world),
                    Some(nr) => {
                        let id = ProgramInstanceId(spec_instance_bits((nr.counter() + 1) as u64));
                        let mid = World { netrun: final(world).netrun, ..*old(world) };
                        &&& final(world).netrun matches Some(nr2)
                        &&& rezzed_next(nr, final(world).netrun.unwrap(), request.program, p.rez)
                        &&& final(world).combat == old(world).combat
                        &&& match old(world).spec_entity(request.netrunner) {
                            None => r == Err::<ActivationOutcome, RulesError>(
                                RulesError::EntityNotFound(request.netrunner),
                            ) && *final(world) == mid,
                            Some(c) => r matches Ok(o) && {
                                &&& o.instance_id == id
                                &&& o.effects_added@ == seq![spec_effect_id_for(id)]
                                &&& exists|c2: Character|
                                    #[trigger] character_replaced(mid, *final(world), request.netrunner, c2)
                                        && c2 == (Character { effects: c2.effects, ..c })
                                        && activation_effect_pushed(
                                        c.effects.effects@,
                                        c2.effects.effects@,
                                        spec_effect_id_for(id),
                                        request.program,
                                        spec_effect_modifiers(p.effect),
                                    )
                            },
                        }
                    },
                }
            },
        },
{
    let (program_class, program_rez, program_effect) = match catalog.get(&request.program.0) {
        Some(p) => (p.class, p.rez, p.effect),
        None => { return Err(RulesError::ProgramNotFound(request.program)); },
    };
    match program_class {
        ProgramClass::Booster | ProgramClass::Defender => {},
        _ => {
            return Err(
                RulesError::ProgramWrongClass {
                    program: request.program,
                    expected: "Booster or Defender",
                    got: class_name(program_class),
                },
            );
        },
    }
    let instance_id = match world.netrun.as_mut() {
        Some(netrun) => netrun.rez_program(request.program.duplicate(), program_rez),
        None => { return Err(RulesError::NoActiveNetrun); },
    };
    let ghost mid = *world;
    proof {
        assert(mid == (World { netrun: mid.netrun, ..*old(world) }));
        assert(mid.pc == old(world).pc);
        assert(mid.npcs@ == old(world).npcs@);
        assert(old(world).spec_entity(request.netrunner) == mid.spec_entity(request.netrunner));
    }
    let modifiers = effect_modifiers_for(&program_effect);
    let effect_id = effect_id_for(instance_id);
    let active_effect = ActiveEffect {
        id: effect_id,
        source: EffectSource::Program(request.program.duplicate()),
        modifiers,
        duration: EffectDuration::UntilEndOfNetrun,
    };
    match world.add_effect(request.netrunner, active_effect) {
        Ok(()) => {},
        Err(e) => {
            proof {
                assert(old(world).spec_entity(request.netrunner) is None);
            }
            return Err(e);
        },
    }
    let mut effects_added: Vec<EffectInstanceId> = Vec::new();
    effects_added.push(effect_id);
    proof {
        let c = old(world).spec_entity(request.netrunner).unwrap();
        let c2 = choose|c2: Character|
            character_replaced(mid, *world, request.netrunner, c2) && c2 == (Character {
                effects: c2.effects,
                ..c
            }) && c2.effects.effects@ == c.effects.effects@.push(active_effect);
        assert(c2.effects.effects@.drop_last() =~= c.effects.effects@);
        assert(mid == (World { netrun: world.netrun, ..*old(world) }));
        assert(character_replaced(mid, *world, request.netrunner, c2));
        assert(effects_added@ =~= seq![spec_effect_id_for(instance_id)]);
        assert(mid.spec_entity(request.netrunner) == old(world).spec_entity(request.netrunner));
    }
    Ok(ActivationOutcome { instance_id, effects_added })
}

} // verus!

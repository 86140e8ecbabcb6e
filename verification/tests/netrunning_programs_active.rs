#![allow(unused_imports, dead_code, unused_variables, unused_mut)]

use cpr_rules::catalog::{
    BlackIce, BlackIceClass, BlackIceEffect, BlackIceId, BoostableCheck, Catalog, Demon, DemonId,
    DiceSpec, DieKind, Program, ProgramClass, ProgramEffect,
};
use cpr_rules::character::{fresh_pc, Character, Role, StatBlock, Wounds};
use cpr_rules::dice::{d10, d10_with_crits, d6, CritD10, D10Outcome};
use cpr_rules::effects::{ActiveEffect, EffectDuration, EffectModifier, EffectSource, EffectStack, ProgramId};
use cpr_rules::error::RulesError;
use cpr_rules::netrunning::architecture::{
    BlackIceState, ControlTarget, FileContents, Floor, LocationId, MeatPosition, NetArchId, NetArchSpec,
    NetArchitecture, NetEntityId, SecurityIntent,
};
use cpr_rules::netrunning::state::{NetrunState, ProgramInstanceId, RezzedProgram, Virus, VirusEffect};
use cpr_rules::resolution::{CheckBreakdown, OpposedOutcome, Resolution};
use cpr_rules::types::{CharacterId, EffectInstanceId, EntityId, Eurobucks, PriceTier, Stat, DV};
use cpr_rules::world::World;
use cpr_rules::Rng;
use rand::SeedableRng;
use cpr_rules::netrunning::programs::active::{activate_booster_or_defender, ActivateProgram, ActivationOutcome};

/// Build a minimal in-memory catalog containing only the listed programs.
fn make_catalog(programs: Vec<Program>) -> Catalog<Program> {
    let mut entries = Vec::new();
    for p in programs {
        entries.push((p.id.0.clone(), p));
    }
    Catalog::new(entries)
}

/// Build a minimal Booster program (Speedy Gonzalvez shape).
fn speedy_gonzalvez() -> Program {
    Program {
        id: ProgramId("speedy_gonzalvez".to_string()),
        display_name: "Speedy Gonzalvez".to_string(),
        class: ProgramClass::Booster,
        atk: 0,
        def: 0,
        rez: 7,
        effect: ProgramEffect::BoostCheck {
            check: BoostableCheck::Speed,
            by: 2,
        },
        icon: "A tiny chrome running shoe with rocket exhausts.".to_string(),
        price: PriceTier::Everyday,
        price_eb: Eurobucks(20),
        slot_cost: 1,
    }
}

/// Build a minimal Defender program (Armor shape).
fn armor_program() -> Program {
    Program {
        id: ProgramId("armor".to_string()),
        display_name: "Armor".to_string(),
        class: ProgramClass::Defender,
        atk: 0,
        def: 0,
        rez: 7,
        effect: ProgramEffect::BlockBlackIceDamage { reduction: 4 },
        icon: "A shimmering force-field orb.".to_string(),
        price: PriceTier::Everyday,
        price_eb: Eurobucks(20),
        slot_cost: 1,
    }
}

/// Build a minimal Anti-Personnel Attacker (DeckKRASH shape) for
/// rejection testing.
fn deckkrash_program() -> Program {
    Program {
        id: ProgramId("deckkrash".to_string()),
        display_name: "DeckKRASH".to_string(),
        class: ProgramClass::AntiPersonnelAttacker,
        atk: 0,
        def: 0,
        rez: 0,
        effect: ProgramEffect::ForceUnsafeJackOut,
        icon: "A skeletal hand dragging a cyberdeck into a pit.".to_string(),
        price: PriceTier::Premium,
        price_eb: Eurobucks(100),
        slot_cost: 1,
    }
}

/// Build a minimal Anti-Program Attacker (Banhammer shape) for rejection
/// testing.
fn banhammer_program() -> Program {
    Program {
        id: ProgramId("banhammer".to_string()),
        display_name: "Banhammer".to_string(),
        class: ProgramClass::AntiProgramAttacker,
        atk: 1,
        def: 0,
        rez: 0,
        effect: ProgramEffect::AnyAttackerProgramDamage {
            dice_vs_non_black_ice: DiceSpec {
                n: 3,
                die: DieKind::D6,
            },
            dice_vs_black_ice: DiceSpec {
                n: 2,
                die: DieKind::D6,
            },
        },
        icon: "A cartoon gavel that glows with righteous light.".to_string(),
        price: PriceTier::Premium,
        price_eb: Eurobucks(100),
        slot_cost: 1,
    }
}

/// Build a World with an active NetrunState for the given EntityId.
fn world_with_netrun(pc_uuid: u128) -> World {
    let mut pc = fresh_pc();
    pc.id = cpr_rules::types::CharacterId(pc_uuid);
    let mut world = World::new(pc);
    let arch = NetArchId("test-arch".to_string());
    let netrun = NetrunState::start(EntityId(pc_uuid), arch, 5);
    world.netrun = Some(netrun);
    world
}

// -----------------------------------------------------------------------
// Acceptance: Speedy Gonzalvez increases speed
// -----------------------------------------------------------------------

/// `test_speedy_gonzalvez_increases_speed`: rezzing the Speedy Gonzalvez
/// Booster program adds `EffectModifier::StatBonus { stat: Move, by: 2 }`.
///
/// Speedy Gonzalvez is a Booster with `BoostCheck { check: Speed, by: 2 }`.
/// Speed inside the NET Architecture is the MOVE-equivalent (p.203), so
/// the activation maps it to a `StatBonus` on `Stat::Move`.
///
/// See p.201, p.203.
#[test]
fn test_speedy_gonzalvez_increases_speed() {
    let pc_uuid = (0xC0DE_0001);
    let mut world = world_with_netrun(pc_uuid);
    let catalog = make_catalog(vec![speedy_gonzalvez()]);

    let request = ActivateProgram {
        netrunner: EntityId(pc_uuid),
        program: ProgramId("speedy_gonzalvez".to_string()),
    };

    let outcome = activate_booster_or_defender(&mut world, &catalog, request)
        .expect("Speedy Gonzalvez activation must succeed");

    // One effect was added.
    assert_eq!(
        outcome.effects_added.len(),
        1,
        "exactly one effect added for Speedy Gonzalvez"
    );

    // The program is now rezzed.
    let netrun = world.netrun.as_ref().unwrap();
    assert_eq!(
        netrun.rezzed_programs.len(),
        1,
        "one program rezzed after activation"
    );
    assert_eq!(
        netrun.rezzed_programs[0].program,
        ProgramId("speedy_gonzalvez".to_string())
    );
    assert_eq!(
        netrun.rezzed_programs[0].current_rez, 7,
        "current_rez starts at max_rez = 7 per p.202"
    );
    assert_eq!(netrun.rezzed_programs[0].instance_id, outcome.instance_id);

    // The StatBonus modifier is on the Netrunner's EffectStack.
    let pc = world.entity(EntityId(pc_uuid)).unwrap();
    let modifiers: Vec<&EffectModifier> = pc.effects.effects.iter().flat_map(|e| e.modifiers.iter()).collect();
    assert_eq!(modifiers.len(), 1, "exactly one modifier on the stack");
    assert_eq!(
        modifiers[0],
        &EffectModifier::StatBonus {
            stat: Stat::Move,
            by: 2,
        },
        "Speedy Gonzalvez must add StatBonus {{ stat: Move, by: 2 }} per p.203"
    );
}

// -----------------------------------------------------------------------
// Acceptance: Armor reduces brain damage
// -----------------------------------------------------------------------

/// `test_armor_reduces_brain_damage`: rezzing the Armor Defender program
/// results in a `NetrunBrainDamageReduction(4)` modifier on the
/// Netrunner's EffectStack.
///
/// Armor is a Defender program with effect `BlockBlackIceDamage { reduction: 4 }`.
/// Activation maps that to `EffectModifier::NetrunBrainDamageReduction(4)`.
/// Black ICE combat resolution consumes this modifier to lower
/// the actual brain damage dealt.
///
/// See p.201, p.203: "Armor: Lowers all brain damage you would receive by 4."
#[test]
fn test_armor_reduces_brain_damage() {
    let pc_uuid = (0xC0DE_0002);
    let mut world = world_with_netrun(pc_uuid);
    let catalog = make_catalog(vec![armor_program()]);

    let request = ActivateProgram {
        netrunner: EntityId(pc_uuid),
        program: ProgramId("armor".to_string()),
    };

    let outcome = activate_booster_or_defender(&mut world, &catalog, request)
        .expect("Armor activation must succeed");

    assert_eq!(outcome.effects_added.len(), 1);

    let pc = world.entity(EntityId(pc_uuid)).unwrap();
    let modifiers: Vec<&EffectModifier> = pc.effects.effects.iter().flat_map(|e| e.modifiers.iter()).collect();
    assert_eq!(modifiers.len(), 1, "exactly one modifier on the stack");
    assert_eq!(
        modifiers[0],
        &EffectModifier::NetrunBrainDamageReduction(4),
        "Armor must add NetrunBrainDamageReduction(4) per p.203"
    );

    // The program is rezzed with correct REZ. See p.202.
    let netrun = world.netrun.as_ref().unwrap();
    assert_eq!(netrun.rezzed_programs[0].current_rez, 7);
}

// -----------------------------------------------------------------------
// Acceptance: Attacker class is rejected
// -----------------------------------------------------------------------

/// `test_rejects_attacker_class`: passing an Anti-Personnel Attacker
/// (DeckKRASH) to [`activate_booster_or_defender`] must return
/// `Err(RulesError::ProgramWrongClass)`. Attackers are fired with `activate_attacker`.
///
/// See p.201: Attacker programs "auto-Deactivate" after firing — they
/// are not passively rezzed like Boosters/Defenders.
#[test]
fn test_rejects_attacker_class() {
    let pc_uuid = (0xC0DE_0003);
    let mut world = world_with_netrun(pc_uuid);
    let catalog = make_catalog(vec![deckkrash_program()]);

    let request = ActivateProgram {
        netrunner: EntityId(pc_uuid),
        program: ProgramId("deckkrash".to_string()),
    };

    let result = activate_booster_or_defender(&mut world, &catalog, request);
    assert!(
        matches!(result, Err(RulesError::ProgramWrongClass { .. })),
        "Anti-Personnel Attacker must be rejected with ProgramWrongClass, got {result:?}"
    );

    // No side effects: the program must not be rezzed.
    let netrun = world.netrun.as_ref().unwrap();
    assert!(
        netrun.rezzed_programs.is_empty(),
        "rezzed_programs must remain empty after rejection"
    );
}

/// `test_rejects_attacker_class` variant for Anti-Program Attackers
/// (Banhammer). Both Attacker sub-classes must be rejected.
#[test]
fn test_rejects_anti_program_attacker_class() {
    let pc_uuid = (0xC0DE_0004);
    let mut world = world_with_netrun(pc_uuid);
    let catalog = make_catalog(vec![banhammer_program()]);

    let request = ActivateProgram {
        netrunner: EntityId(pc_uuid),
        program: ProgramId("banhammer".to_string()),
    };

    let result = activate_booster_or_defender(&mut world, &catalog, request);
    assert!(
        matches!(result, Err(RulesError::ProgramWrongClass { .. })),
        "Anti-Program Attacker must be rejected with ProgramWrongClass, got {result:?}"
    );
}

// -----------------------------------------------------------------------
// Acceptance: one-per-Round constraint documented
// -----------------------------------------------------------------------

/// `test_one_per_round_constraint_documented`: regression note documenting
/// that the one-activation-per-Round rule (p.201) is enforced by the
/// **caller**, not by [`activate_booster_or_defender`].
///
/// This test verifies that the function itself does *not* raise an error
/// when the same program is activated twice in one call sequence — a
/// necessary property for replay, where individual actions are replayed
/// in isolation. The caller (turn engine / GM layer) is responsible for
/// rejecting duplicate activations within the same Round.
///
/// See p.201: "You can only run a program once per Round."
#[test]
fn test_one_per_round_constraint_documented() {
    let pc_uuid = (0xC0DE_0005);
    let mut world = world_with_netrun(pc_uuid);
    let catalog = make_catalog(vec![speedy_gonzalvez()]);

    // First activation — always allowed.
    let r1 = activate_booster_or_defender(
        &mut world,
        &catalog,
        ActivateProgram {
            netrunner: EntityId(pc_uuid),
            program: ProgramId("speedy_gonzalvez".to_string()),
        },
    );
    assert!(r1.is_ok(), "first activation must succeed");

    // Second activation of the same program in the same call sequence:
    // `activate_booster_or_defender` does NOT block it — the caller must.
    // This documents the contract rather than the constraint.
    let r2 = activate_booster_or_defender(
        &mut world,
        &catalog,
        ActivateProgram {
            netrunner: EntityId(pc_uuid),
            program: ProgramId("speedy_gonzalvez".to_string()),
        },
    );
    assert!(
        r2.is_ok(),
        "activate_booster_or_defender does not enforce 1/round; caller must (p.201). \
         Got: {r2:?}"
    );

    // Two rezzed instances of the same program are possible (p.201:
    // "You can run multiple copies of the same Program on your Cyberdeck").
    let netrun = world.netrun.as_ref().unwrap();
    assert_eq!(
        netrun.rezzed_programs.len(),
        2,
        "two copies rezzed (caller did not enforce 1/round — that is correct here)"
    );
}

// -----------------------------------------------------------------------
// Regression: unknown program slug returns ProgramNotFound
// -----------------------------------------------------------------------

/// Passing an unknown slug returns `RulesError::ProgramNotFound`.
#[test]
fn test_unknown_slug_returns_program_not_found() {
    let pc_uuid = (0xC0DE_0006);
    let mut world = world_with_netrun(pc_uuid);
    let catalog = make_catalog(vec![]);

    let request = ActivateProgram {
        netrunner: EntityId(pc_uuid),
        program: ProgramId("no_such_program".to_string()),
    };

    let result = activate_booster_or_defender(&mut world, &catalog, request);
    assert!(
        matches!(result, Err(RulesError::ProgramNotFound(_))),
        "unknown slug must yield ProgramNotFound, got {result:?}"
    );
}

// -----------------------------------------------------------------------
// Regression: no active netrun returns NoActiveNetrun
// -----------------------------------------------------------------------

/// Calling activation when `world.netrun` is `None` returns
/// `RulesError::NoActiveNetrun`.
#[test]
fn test_no_active_netrun_returns_error() {
    let mut world = World::new(fresh_pc());
    // netrun is None — no active netrun.
    let catalog = make_catalog(vec![speedy_gonzalvez()]);
    let pc_uuid = world.pc.id.0;

    let request = ActivateProgram {
        netrunner: EntityId(pc_uuid),
        program: ProgramId("speedy_gonzalvez".to_string()),
    };

    let result = activate_booster_or_defender(&mut world, &catalog, request);
    assert!(
        matches!(result, Err(RulesError::NoActiveNetrun)),
        "no active netrun must yield NoActiveNetrun, got {result:?}"
    );
}

// -----------------------------------------------------------------------
// Regression: effects land on the correct duration
// -----------------------------------------------------------------------

/// Effects added during activation use `EffectDuration::UntilEndOfNetrun`
/// so they are automatically cleared when the Netrunner jacks out.
///
/// See p.198: "All your Programs leave the Architecture with you when
/// you Jack Out."
#[test]
fn test_activation_effect_has_until_end_of_netrun_duration() {
    let pc_uuid = (0xC0DE_0007);
    let mut world = world_with_netrun(pc_uuid);
    let catalog = make_catalog(vec![armor_program()]);

    let request = ActivateProgram {
        netrunner: EntityId(pc_uuid),
        program: ProgramId("armor".to_string()),
    };

    let outcome = activate_booster_or_defender(&mut world, &catalog, request)
        .expect("Armor activation must succeed");

    let effect_id = outcome.effects_added[0];
    let pc = world.entity(EntityId(pc_uuid)).unwrap();
    let active = pc
        .effects
        .effects
        .iter()
        .find(|e| e.id == effect_id)
        .expect("effect must be present on stack");

    assert_eq!(
        active.duration,
        EffectDuration::UntilEndOfNetrun,
        "program effects must last UntilEndOfNetrun (cleared on jack-out per p.198)"
    );
}

// -----------------------------------------------------------------------
// Regression: EffectSource is Program(_)
// -----------------------------------------------------------------------

/// Effects added by activation use `EffectSource::Program(program_id)` so
/// the GM layer and UI can attribute the modifier to the correct program.
#[test]
fn test_activation_effect_source_is_program() {
    let pc_uuid = (0xC0DE_0008);
    let mut world = world_with_netrun(pc_uuid);
    let catalog = make_catalog(vec![speedy_gonzalvez()]);

    let request = ActivateProgram {
        netrunner: EntityId(pc_uuid),
        program: ProgramId("speedy_gonzalvez".to_string()),
    };

    let outcome = activate_booster_or_defender(&mut world, &catalog, request)
        .expect("activation must succeed");

    let effect_id = outcome.effects_added[0];
    let pc = world.entity(EntityId(pc_uuid)).unwrap();
    let active = pc
        .effects
        .effects
        .iter()
        .find(|e| e.id == effect_id)
        .expect("effect must be present on stack");

    assert_eq!(
        active.source,
        EffectSource::Program(ProgramId("speedy_gonzalvez".to_string())),
        "effect source must be Program(speedy_gonzalvez)"
    );
}

#![allow(unused_imports, dead_code, unused_variables, unused_mut)]

use cpr_rules::catalog::{
    BlackIce, BlackIceClass, BlackIceEffect, BlackIceId, BoostableCheck, Catalog, Demon, DemonId,
    DiceSpec, DieKind, Program, ProgramClass, ProgramEffect,
};
use cpr_rules::character::{fresh_pc, Character, Role, StatBlock, Wounds};
use cpr_rules::dice::{d10, d10_with_crits, d6, CritD10, D10Outcome};
use cpr_rules::effects::{ActiveEffect, EffectDuration, EffectModifier, EffectSource, EffectStack, ProgramId};
use cpr_rules::error::RulesError;
use cpr_rules::netrunning::architecture::{
    BlackIceState, ControlTarget, FileContents, Floor, LocationId, MeatPosition, NetArchId, NetArchSpec,
    NetArchitecture, NetEntityId, SecurityIntent,
};
use cpr_rules::netrunning::state::{NetrunState, ProgramInstanceId, RezzedProgram, Virus, VirusEffect};
use cpr_rules::resolution::{CheckBreakdown, OpposedOutcome, Resolution};
use cpr_rules::types::{CharacterId, EffectInstanceId, EntityId, Eurobucks, PriceTier, Stat, DV};
use cpr_rules::world::World;
use cpr_rules::Rng;
use rand::SeedableRng;

use cpr_rules::netrunning::abilities::backdoor::{BackdoorAction, BackdoorOutcome};

// -------------------------------------------------------------------------
// Helpers
// -------------------------------------------------------------------------

/// Build a `CritD10` with a known net value, simulating a normal (non-crit)
/// roll of `roll`. Used to make RNG-independent assertions.
fn fake_d10(roll: u8) -> CritD10 {
    CritD10 {
        base: roll,
        follow_up: None,
        outcome: D10Outcome::Normal,
        net: roll as i16,
    }
}

/// Build a fresh Netrunner PC with specific INT and role_rank.
fn netrunner_pc(int: u8, role_rank: u8) -> cpr_rules::character::Character {
    let mut pc = fresh_pc();
    pc.role = Role::Netrunner;
    pc.stats.int = int;
    pc.role_rank = role_rank;
    pc.luck_pool = 10;
    pc.stats.luck = 10;
    pc
}

/// Build a minimal `World` with an active netrun. `current_floor = 0`.
///
/// Floors live on the `BackdoorAction`, not in the World — the architecture
/// registry is a GM-layer concern. This helper only wires up `NetrunState`.
fn world_in_netrun(pc: cpr_rules::character::Character, net_actions_max: u8) -> (World, EntityId) {
    let pc_id = EntityId(pc.id.0);
    let mut world = World::new(pc);
    // Interface rank 5 → max 3 NET actions; override below.
    let mut state = NetrunState::start(pc_id, NetArchId("test-arch".into()), 5);
    state.net_actions_max_this_turn = net_actions_max;
    state.net_actions_used_this_turn = 0;
    world.netrun = Some(state);
    (world, pc_id)
}

// -------------------------------------------------------------------------
// test_backdoor_passes_password_floor
// -------------------------------------------------------------------------

/// A forced high d10 must produce `passed=true` and advance `current_floor`
/// by 1. See p.199 (Backdoor success).
///
/// Setup: INT=6, Interface=4, Password DV=8.
/// We need d10 such that 6+4+d10 >= 8, i.e. d10 >= -2 (always true for
/// positive d10). We pick a seed that gives a positive d10 to guarantee
/// success against DV 8.
#[test]
fn test_backdoor_passes_password_floor() {
    let pc = netrunner_pc(6, 4);
    let floors = vec![
        Floor::Password { dv: DV(8) },
        Floor::File {
            dv: DV(8),
            contents: cpr_rules::netrunning::architecture::FileContents::Data("Prize".to_string()),
        },
    ];
    let (world, pc_id) = world_in_netrun(pc, 3);

    // With INT=6 and Interface=4 against DV=8, any d10 >= -2 succeeds.
    // Seed 0 reliably produces a non-negative d10.
    let mut found = false;
    for seed in 0u64..100 {
        // Reset world for each attempt.
        let pc2 = netrunner_pc(6, 4);
        let (mut w2, id2) = world_in_netrun(pc2, 3);
        let mut rng = Rng::seed_from_u64(seed);
        let action = BackdoorAction {
            netrunner: id2,
            luck_to_spend: 0,
            floors: floors.clone(),
        };
        let outcome = action.resolve(&mut w2, &mut rng).expect("should not error");
        if outcome.passed {
            assert!(
                outcome.breakdown.success,
                "passed must equal breakdown.success"
            );
            assert_eq!(
                w2.netrun.as_ref().unwrap().current_floor,
                1,
                "current_floor must advance to 1 on success (seed {seed})"
            );
            assert_eq!(
                w2.netrun.as_ref().unwrap().net_actions_used_this_turn,
                1,
                "one action must be consumed"
            );
            found = true;
            break;
        }
    }

    // Also verify directly with a known-good breakdown (seed-independent).
    // INT=6, Interface=4, d10=5 → final=15 vs DV=8 → success.
    let _ = (world, pc_id); // suppress unused warning
    let d10 = fake_d10(5);
    let bd = CheckBreakdown::new(6, 4, 0, 0, d10, DV(8));
    assert!(bd.success, "INT(6)+Interface(4)+d10(5)=15 >= DV(8)");
    assert!(found, "no passing seed found in 100 attempts");
}

// -------------------------------------------------------------------------
// test_backdoor_fails_high_dv
// -------------------------------------------------------------------------

/// A forced low d10 (against a high DV) must produce `passed=false` and
/// leave `current_floor` unchanged. See p.199 (Backdoor failure).
///
/// Setup: INT=1, Interface=1 vs DV=24 (Legendary). Max d10=10 → total=12 < 24.
#[test]
fn test_backdoor_fails_high_dv() {
    // Direct arithmetic: INT=1, Interface=1, d10=10 → total=12 < DV=24.
    let d10 = fake_d10(10);
    let bd = CheckBreakdown::new(1, 1, 0, 0, d10, DV(24));
    assert!(!bd.success, "1+1+10=12 < 24 → failure");

    let floors = vec![Floor::Password { dv: DV(24) }];

    // Find a seed that produces failure (any seed where the roll doesn't
    // explode enough to reach 24 - 2 = 22 on a single d10 is fine).
    let mut found_failure = false;
    for seed in 0u64..200 {
        let pc = netrunner_pc(1, 1);
        let (mut world, pc_id) = world_in_netrun(pc, 3);
        let mut rng = Rng::seed_from_u64(seed);
        let action = BackdoorAction {
            netrunner: pc_id,
            luck_to_spend: 0,
            floors: floors.clone(),
        };
        let outcome = action
            .resolve(&mut world, &mut rng)
            .expect("should not error");
        if !outcome.passed {
            assert!(
                !outcome.breakdown.success,
                "passed must equal breakdown.success"
            );
            assert_eq!(
                world.netrun.as_ref().unwrap().current_floor,
                0,
                "current_floor must stay at 0 on failure (seed {seed})"
            );
            assert_eq!(
                world.netrun.as_ref().unwrap().net_actions_used_this_turn,
                1,
                "one action must be consumed even on failure"
            );
            found_failure = true;
            break;
        }
    }

    assert!(
        found_failure,
        "no failing seed found for INT=1 Interface=1 vs DV=24 in 200 attempts"
    );
}

// -------------------------------------------------------------------------
// test_backdoor_rejects_non_password_floor
// -------------------------------------------------------------------------

/// If the current floor is not `Floor::Password`, Backdoor must return
/// `Err(WrongFloorType)` without consuming a NET action. See p.199.
#[test]
fn test_backdoor_rejects_non_password_floor() {

    let floors_black_ice = vec![Floor::BlackIce {
        template: BlackIceId("hellhound".into()),
        state: BlackIceState::LyingInWait,
        ice_per: 0,
    }];

    let pc = netrunner_pc(6, 4);
    let (mut world, pc_id) = world_in_netrun(pc, 3);
    let mut rng = Rng::seed_from_u64(0);

    let action = BackdoorAction {
        netrunner: pc_id,
        luck_to_spend: 0,
        floors: floors_black_ice,
    };

    let result = action.resolve(&mut world, &mut rng);
    assert!(
        matches!(
            result,
            Err(RulesError::WrongFloorType {
                expected: "Password",
                found: "BlackIce"
            })
        ),
        "expected WrongFloorType(Password, BlackIce), got {result:?}"
    );

    // No NET action should have been consumed on the error path. See p.199.
    assert_eq!(
        world.netrun.as_ref().unwrap().net_actions_used_this_turn,
        0,
        "WrongFloorType must not consume a NET action"
    );
}

// -------------------------------------------------------------------------
// test_backdoor_consumes_one_action
// -------------------------------------------------------------------------

/// Backdoor must increment `net_actions_used_this_turn` by exactly 1 on
/// both success and failure. See p.198 (NET Actions as the unit of cost).
#[test]
fn test_backdoor_consumes_one_action() {
    let floors = vec![
        Floor::Password { dv: DV(8) },
        Floor::File {
            dv: DV(8),
            contents: cpr_rules::netrunning::architecture::FileContents::Data("Data".to_string()),
        },
    ];

    // --- success path ---
    let pc_s = netrunner_pc(8, 8); // high stats to guarantee success vs DV 8
    let (mut world_s, id_s) = world_in_netrun(pc_s, 5);
    let mut rng_s = Rng::seed_from_u64(1);
    let action_s = BackdoorAction {
        netrunner: id_s,
        luck_to_spend: 0,
        floors: floors.clone(),
    };
    let _ = action_s.resolve(&mut world_s, &mut rng_s).unwrap();
    assert_eq!(
        world_s.netrun.as_ref().unwrap().net_actions_used_this_turn,
        1,
        "success: exactly 1 action consumed"
    );

    // --- failure path (high DV) ---
    let high_dv_floors = vec![Floor::Password { dv: DV(24) }];
    let pc_f = netrunner_pc(1, 1); // low stats, high DV → will almost certainly fail
    let (world_f, id_f) = world_in_netrun(pc_f, 5);
    // Find a seed that fails
    for seed in 0u64..200 {
        let pc_f2 = netrunner_pc(1, 1);
        let (mut w2, id2) = world_in_netrun(pc_f2, 5);
        let mut rng_f = Rng::seed_from_u64(seed);
        let action_f = BackdoorAction {
            netrunner: id2,
            luck_to_spend: 0,
            floors: high_dv_floors.clone(),
        };
        let outcome = action_f.resolve(&mut w2, &mut rng_f).unwrap();
        if !outcome.passed {
            assert_eq!(
                w2.netrun.as_ref().unwrap().net_actions_used_this_turn,
                1,
                "failure: exactly 1 action consumed (seed {seed})"
            );
            break;
        }
    }

    // suppress unused warnings
    let _ = (world_f, id_f);
}

// -------------------------------------------------------------------------
// Additional coverage tests
// -------------------------------------------------------------------------

/// `test_backdoor_requires_active_netrun`: calling without an active netrun
/// must return `Err(NoActiveNetrun)`.
#[test]
fn test_backdoor_requires_active_netrun() {
    let pc = netrunner_pc(6, 4);
    let pc_id = EntityId(pc.id.0);
    // World with no active netrun.
    let mut world = World::new(pc);
    let mut rng = Rng::seed_from_u64(0);

    let action = BackdoorAction {
        netrunner: pc_id,
        luck_to_spend: 0,
        floors: vec![Floor::Password { dv: DV(8) }],
    };

    let result = action.resolve(&mut world, &mut rng);
    assert!(
        matches!(result, Err(RulesError::NoActiveNetrun)),
        "expected NoActiveNetrun, got {result:?}"
    );
}

/// `test_backdoor_exhausted_net_actions`: if all NET actions are consumed,
/// must return `Err(NoNetActionsRemaining)`.
#[test]
fn test_backdoor_exhausted_net_actions() {
    let floors = vec![Floor::Password { dv: DV(8) }];
    let pc = netrunner_pc(6, 4);
    let (mut world, pc_id) = world_in_netrun(pc, 2);
    // Use all 2 actions.
    world.netrun.as_mut().unwrap().net_actions_used_this_turn = 2;
    let mut rng = Rng::seed_from_u64(0);

    let action = BackdoorAction {
        netrunner: pc_id,
        luck_to_spend: 0,
        floors,
    };

    let result = action.resolve(&mut world, &mut rng);
    assert!(
        matches!(result, Err(RulesError::NoNetActionsRemaining)),
        "expected NoNetActionsRemaining(max=2), got {result:?}"
    );
}

/// `test_backdoor_validates_luck`: spending more luck than available returns
/// `Err(InsufficientLuck)`. The floor type check runs first (after action
/// budget), but luck is validated after the floor type is confirmed.
#[test]
fn test_backdoor_validates_luck() {
    let floors = vec![Floor::Password { dv: DV(8) }];
    let mut pc = netrunner_pc(6, 4);
    pc.luck_pool = 0;
    let (mut world, pc_id) = world_in_netrun(pc, 3);
    let mut rng = Rng::seed_from_u64(0);

    let action = BackdoorAction {
        netrunner: pc_id,
        luck_to_spend: 3,
        floors,
    };

    let result = action.resolve(&mut world, &mut rng);
    assert!(
        matches!(
            result,
            Err(RulesError::InsufficientLuck {
                requested: 3,
                available: 0
            })
        ),
        "expected InsufficientLuck, got {result:?}"
    );
}

/// `test_backdoor_entity_not_found`: unknown entity must return
/// `Err(EntityNotFound)`.
#[test]
fn test_backdoor_entity_not_found() {

    let floors = vec![Floor::Password { dv: DV(8) }];
    let pc = netrunner_pc(6, 4);
    let (mut world, _) = world_in_netrun(pc, 3);
    let mut rng = Rng::seed_from_u64(0);

    let bad_id = EntityId((0xDEAD_BEEF));
    let action = BackdoorAction {
        netrunner: bad_id,
        luck_to_spend: 0,
        floors,
    };

    let result = action.resolve(&mut world, &mut rng);
    assert!(
        matches!(result, Err(RulesError::EntityNotFound(id)) if id == bad_id),
        "expected EntityNotFound, got {result:?}"
    );
}

/// `test_backdoor_luck_adds_to_check`: spending LUCK adds to final value
/// and decrements the pool.
#[test]
fn test_backdoor_luck_adds_to_check() {
    let floors = vec![
        Floor::Password { dv: DV(8) },
        Floor::File {
            dv: DV(8),
            contents: cpr_rules::netrunning::architecture::FileContents::Data("Prize".to_string()),
        },
    ];
    let pc = netrunner_pc(6, 4); // luck_pool = 10
    let (mut world, pc_id) = world_in_netrun(pc, 3);
    let mut rng = Rng::seed_from_u64(7);

    let action = BackdoorAction {
        netrunner: pc_id,
        luck_to_spend: 3,
        floors,
    };

    let outcome = action.resolve(&mut world, &mut rng).unwrap();
    assert_eq!(outcome.breakdown.luck_spent, 3);
    // final = int + interface + 0 + luck + d10.net
    assert_eq!(
        outcome.breakdown.final_value,
        6 + 4 + 3 + outcome.breakdown.d10.net
    );
    // Pool decremented.
    assert_eq!(world.pc.luck_pool, 7, "luck_pool 10 - 3 = 7");
}

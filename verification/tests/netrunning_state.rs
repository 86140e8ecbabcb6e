#![allow(unused_imports, dead_code, unused_variables, unused_mut)]

use cpr_rules::catalog::{
    BlackIce, BlackIceClass, BlackIceEffect, BlackIceId, BoostableCheck, Catalog, Demon, DemonId,
    DiceSpec, DieKind, Program, ProgramClass, ProgramEffect,
};
use cpr_rules::character::{fresh_pc, Character, Role, StatBlock, Wounds};
use cpr_rules::dice::{d10, d10_with_crits, d6, CritD10, D10Outcome};
use cpr_rules::effects::{ActiveEffect, EffectDuration, EffectModifier, EffectSource, EffectStack, ProgramId};
use cpr_rules::error::RulesError;
use cpr_rules::netrunning::architecture::{
    BlackIceState, ControlTarget, FileContents, Floor, LocationId, MeatPosition, NetArchId, NetArchSpec,
    NetArchitecture, NetEntityId, SecurityIntent,
};
use cpr_rules::netrunning::state::{NetrunState, ProgramInstanceId, RezzedProgram, Virus, VirusEffect};
use cpr_rules::resolution::{CheckBreakdown, OpposedOutcome, Resolution};
use cpr_rules::types::{CharacterId, EffectInstanceId, EntityId, Eurobucks, PriceTier, Stat, DV};
use cpr_rules::world::World;
use cpr_rules::Rng;
use rand::SeedableRng;

use cpr_rules::netrunning::state::net_actions_for_rank;

fn make_entity(n: u128) -> EntityId {
    EntityId((n))
}

fn make_arch(s: &str) -> NetArchId {
    NetArchId(s.to_string())
}

fn make_program(s: &str) -> ProgramId {
    ProgramId(s.to_string())
}

/// `test_netrun_state_initializes_correctly`:
/// `start()` must populate all fields with the expected initial values.
///
/// Verified against: p.198 (jack-in starts at top, no programs rezzed),
/// p.197 (Interface rank 4 → 3 NET Actions).
#[test]
fn test_netrun_state_initializes_correctly() {
    let entity = make_entity(0xAB);
    let arch = make_arch("test-arch");
    let state = NetrunState::start(entity, arch.clone(), 5); // rank 5 → 3 actions

    assert_eq!(state.netrunner, entity);
    assert_eq!(state.architecture, arch);
    assert_eq!(state.current_floor, 0, "start at floor 0 (Lobby)");
    assert_eq!(state.revealed_floors, 1, "one floor revealed at start");
    assert!(
        state.rezzed_programs.is_empty(),
        "no programs rezzed at start"
    );
    assert!(state.controlled_nodes.is_empty(), "no nodes held at start");
    assert!(
        state.queued_viruses.is_empty(),
        "no viruses queued at start"
    );
    assert_eq!(state.cloak_dv, None, "Cloak inactive at start");
    assert_eq!(
        state.net_actions_used_this_turn, 0,
        "zero actions used at start"
    );
    assert_eq!(
        state.net_actions_max_this_turn, 3,
        "rank 5 → 3 NET Actions per p.197"
    );
}

/// `test_can_advance_floor_when_revealed`:
/// `can_advance_floor` returns `true` iff `revealed_floors > current_floor + 1`.
///
/// See p.199 (Pathfinder reveals floors).
#[test]
fn test_can_advance_floor_when_revealed() {
    let entity = make_entity(0x01);
    let arch = make_arch("arch-a");
    let mut state = NetrunState::start(entity, arch, 3);

    // At start: current_floor=0, revealed_floors=1 → cannot advance.
    assert!(
        !state.can_advance_floor(),
        "cannot advance when current_floor == revealed_floors - 1"
    );

    // Reveal a second floor via Pathfinder → can advance.
    state.revealed_floors = 2;
    assert!(
        state.can_advance_floor(),
        "can advance when revealed_floors > current_floor + 1"
    );

    // Advance; now at floor 1, revealed=2 → cannot advance again.
    state.current_floor = 1;
    assert!(
        !state.can_advance_floor(),
        "cannot advance again at deepest revealed floor"
    );

    // Reveal a third floor → can advance once more.
    state.revealed_floors = 3;
    assert!(
        state.can_advance_floor(),
        "can advance after Pathfinder reveals more"
    );
}

/// `test_rez_and_derez_program`:
/// `rez_program` adds a `RezzedProgram`; `derez_program` removes it and
/// returns the correct entry; derezzing an unknown ID returns `None`.
///
/// See p.201 (Programs, Defeating a Program).
#[test]
fn test_rez_and_derez_program() {
    let entity = make_entity(0x02);
    let arch = make_arch("arch-b");
    let mut state = NetrunState::start(entity, arch, 6);

    // Rez a program.
    let prog_id = make_program("eraser");
    let instance_id = state.rez_program(prog_id.clone(), 7);

    assert_eq!(state.rezzed_programs.len(), 1, "one program rezzed");
    assert_eq!(state.rezzed_programs[0].program, prog_id);
    assert_eq!(state.rezzed_programs[0].current_rez, 7);
    assert_eq!(state.rezzed_programs[0].instance_id, instance_id);

    // Derez it — round-trip.
    let removed = state.derez_program(instance_id.clone());
    assert!(removed.is_some(), "derez must return the program entry");
    let removed = removed.unwrap();
    assert_eq!(removed.program, prog_id);
    assert_eq!(removed.current_rez, 7);
    assert_eq!(removed.instance_id, instance_id);
    assert!(
        state.rezzed_programs.is_empty(),
        "list must be empty after derez"
    );

    // Derezzing a missing ID returns None — no panic.
    let missing = state.derez_program(instance_id.clone());
    assert_eq!(missing, None, "derez of missing ID must return None");
}

/// `test_rez_program_gives_unique_ids`:
/// Repeated calls to `rez_program` produce distinct instance IDs.
#[test]
fn test_rez_program_gives_unique_ids() {
    let entity = make_entity(0x03);
    let arch = make_arch("arch-c");
    let mut state = NetrunState::start(entity, arch, 4);

    let id_a = state.rez_program(make_program("eraser"), 7);
    let id_b = state.rez_program(make_program("eraser"), 7);
    let id_c = state.rez_program(make_program("flak"), 7);

    assert_ne!(
        id_a, id_b,
        "two rezzed copies of the same program get distinct IDs"
    );
    assert_ne!(id_b, id_c, "different programs also get distinct IDs");
    assert_ne!(id_a, id_c);
}

/// `test_take_and_release_control_nodes`:
/// Taking 3 nodes populates `controlled_nodes`; `release_all` empties it.
///
/// See p.199 (Control) and p.198 (Jack Out releases all nodes).
#[test]
fn test_take_and_release_control_nodes() {
    let entity = make_entity(0x04);
    let arch = make_arch("arch-d");
    let mut state = NetrunState::start(entity, arch, 7);

    state.take_control_node(2);
    state.take_control_node(5);
    state.take_control_node(8);

    assert_eq!(
        state.controlled_nodes,
        vec![2, 5, 8],
        "three control nodes recorded"
    );

    state.release_all_control_nodes();
    assert!(
        state.controlled_nodes.is_empty(),
        "all nodes released on jack-out"
    );
}

/// `test_queue_and_drain_viruses`:
/// Queue 3 viruses; drain returns all 3 and leaves the queue empty.
///
/// See p.200 (Virus Interface Ability).
#[test]
fn test_queue_and_drain_viruses() {
    let entity = make_entity(0x05);
    let arch = make_arch("arch-e");
    let mut state = NetrunState::start(entity, arch, 8);

    let v1 = Virus {
        description: "Alter Asp icon".into(),
        effect: VirusEffect::AlterIcon("asp".into()),
        dv_to_install: DV(6),
        net_actions_to_install: 1,
    };
    let v2 = Virus {
        description: "Deactivate Hellhound".into(),
        effect: VirusEffect::DeactivateIce("hellhound".into()),
        dv_to_install: DV(10),
        net_actions_to_install: 2,
    };
    let v3 = Virus {
        description: "Malfunction camera node".into(),
        effect: VirusEffect::MalfunctionNode(3),
        dv_to_install: DV(10),
        net_actions_to_install: 2,
    };

    state.queue_virus(v1.clone());
    state.queue_virus(v2.clone());
    state.queue_virus(v3.clone());
    assert_eq!(state.queued_viruses.len(), 3, "three viruses queued");

    let drained = state.drain_viruses_for_jackout();
    assert_eq!(drained.len(), 3, "drain returns all three viruses");
    assert_eq!(drained[0], v1);
    assert_eq!(drained[1], v2);
    assert_eq!(drained[2], v3);
    assert!(
        state.queued_viruses.is_empty(),
        "queue is empty after drain"
    );
}

/// `test_reset_turn_resets_actions_used`:
/// After using some actions, `reset_turn(5)` → used=0, max=3 (rank 5).
///
/// See p.197 (NET Actions table), p.198 (each Turn).
#[test]
fn test_reset_turn_resets_actions_used() {
    let entity = make_entity(0x06);
    let arch = make_arch("arch-f");
    let mut state = NetrunState::start(entity, arch, 5); // rank 5 → max 3

    // Simulate having spent actions.
    state.net_actions_used_this_turn = 2;

    state.reset_turn(5);
    assert_eq!(state.net_actions_used_this_turn, 0, "used reset to 0");
    assert_eq!(
        state.net_actions_max_this_turn, 3,
        "rank 5 → max 3 per p.197"
    );
}

/// `test_net_actions_per_interface_rank_matches_table`:
/// Verify rank 1, 4, 7, 10 against the NET Actions table on p.197.
///
/// Table (p.197):
/// | Interface Rank | 1-3 | 4-6 | 7-9 | 10 |
/// | NET Actions    |  2  |  3  |  4  |  5 |
#[test]
fn test_net_actions_per_interface_rank_matches_table() {
    // rank 1 → 2 actions
    assert_eq!(
        net_actions_for_rank(1),
        2,
        "rank 1 must give 2 NET Actions (p.197)"
    );
    // rank 4 → 3 actions
    assert_eq!(
        net_actions_for_rank(4),
        3,
        "rank 4 must give 3 NET Actions (p.197)"
    );
    // rank 7 → 4 actions
    assert_eq!(
        net_actions_for_rank(7),
        4,
        "rank 7 must give 4 NET Actions (p.197)"
    );
    // rank 10 → 5 actions
    assert_eq!(
        net_actions_for_rank(10),
        5,
        "rank 10 must give 5 NET Actions (p.197)"
    );

    // Spot-check additional ranks.
    assert_eq!(net_actions_for_rank(2), 2, "rank 2 → 2");
    assert_eq!(net_actions_for_rank(3), 2, "rank 3 → 2");
    assert_eq!(net_actions_for_rank(5), 3, "rank 5 → 3");
    assert_eq!(net_actions_for_rank(6), 3, "rank 6 → 3");
    assert_eq!(net_actions_for_rank(8), 4, "rank 8 → 4");
    assert_eq!(net_actions_for_rank(9), 4, "rank 9 → 4");
}

/// `test_program_instance_id_deterministic`:
/// The same counter always produces the same `ProgramInstanceId`.
#[test]
fn test_program_instance_id_deterministic() {
    let id_a = ProgramInstanceId::from_counter(1);
    let id_b = ProgramInstanceId::from_counter(1);
    let id_c = ProgramInstanceId::from_counter(2);
    assert_eq!(id_a, id_b, "same counter → same ID");
    assert_ne!(id_a, id_c, "different counter → different ID");
}


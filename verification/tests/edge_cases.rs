#![allow(unused_imports, dead_code, unused_variables, unused_mut)]

use cpr_rules::catalog::{
    BlackIce, BlackIceClass, BlackIceEffect, BlackIceId, BoostableCheck, Catalog, Demon, DemonId,
    DiceSpec, DieKind, Program, ProgramClass, ProgramEffect,
};
use cpr_rules::character::{fresh_pc, Character, Role, StatBlock, Wounds};
use cpr_rules::dice::{d10, d10_with_crits, d6, CritD10, D10Outcome};
use cpr_rules::effects::{ActiveEffect, EffectDuration, EffectModifier, EffectSource, EffectStack, ProgramId};
use cpr_rules::error::RulesError;
use cpr_rules::netrunning::architecture::{
    BlackIceState, ControlTarget, FileContents, Floor, LocationId, MeatPosition, NetArchId, NetArchSpec,
    NetArchitecture, NetEntityId, SecurityIntent,
};
use cpr_rules::netrunning::state::{NetrunState, ProgramInstanceId, RezzedProgram, Virus, VirusEffect};
use cpr_rules::resolution::{CheckBreakdown, OpposedOutcome, Resolution};
use cpr_rules::types::{CharacterId, EffectInstanceId, EntityId, Eurobucks, PriceTier, Stat, DV};
use cpr_rules::world::World;
use cpr_rules::Rng;
use rand::SeedableRng;
use cpr_rules::combat::CombatState;
use cpr_rules::netrunning::abilities::cloak::{cloak_dv_of, CloakAction};
use cpr_rules::netrunning::abilities::slide::SlideAction;
use cpr_rules::netrunning::abilities::zap::{ZapAction, ZapTarget};
use cpr_rules::netrunning::architecture::{
    control_target_for_roll, demon_wanted, dv_for_roll, file_contents_for_roll, floor_kind_for_roll,
    generate_net_architecture,
};
use cpr_rules::netrunning::black_ice::{
    black_ice_take_turn, encounter_black_ice, ice_entity_id, BlackIceEncounter,
};
use cpr_rules::netrunning::demon::DemonState;
use cpr_rules::netrunning::programs::active::{activate_booster_or_defender, class_name, ActivateProgram};
use cpr_rules::netrunning::programs::attackers::{
    activate_attacker, AttackTarget, AttackerActivation, AttackerEffectApplied,
};

fn netrunner(id: u128, int: u8, rank: u8) -> Character {
    let mut c = fresh_pc();
    c.id = CharacterId(id);
    c.role = Role::Netrunner;
    c.stats.int = int;
    c.role_rank = rank;
    c
}

fn program(slug: &str, class: ProgramClass, atk: u8, def: u8, effect: ProgramEffect) -> Program {
    Program {
        id: ProgramId(slug.into()),
        display_name: slug.into(),
        class,
        atk,
        def,
        rez: 7,
        effect,
        icon: String::new(),
        price: PriceTier::Premium,
        price_eb: Eurobucks(100),
        slot_cost: 1,
    }
}

fn banhammer() -> Program {
    program(
        "banhammer",
        ProgramClass::AntiProgramAttacker,
        1,
        0,
        ProgramEffect::AnyAttackerProgramDamage {
            dice_vs_non_black_ice: DiceSpec { n: 3, die: DieKind::D6 },
            dice_vs_black_ice: DiceSpec { n: 2, die: DieKind::D6 },
        },
    )
}

fn hellbolt() -> Program {
    program(
        "hellbolt",
        ProgramClass::AntiPersonnelAttacker,
        2,
        0,
        ProgramEffect::BrainDamageWithBurn { dice: DiceSpec { n: 2, die: DieKind::D6 }, burn_per_turn: 2 },
    )
}

fn ice(slug: &str, class: BlackIceClass, spd: u8, atk: u8, effect: BlackIceEffect) -> BlackIce {
    BlackIce {
        id: BlackIceId(slug.into()),
        display_name: slug.into(),
        class,
        per: 4,
        spd,
        atk,
        def: 2,
        rez: 15,
        effect,
        icon: String::new(),
        price: PriceTier::Expensive,
        price_eb: Eurobucks(500),
    }
}

fn attack(program: &str, instance: ProgramInstanceId, target: AttackTarget) -> AttackerActivation {
    AttackerActivation {
        netrunner: EntityId(1),
        program: ProgramId(program.into()),
        program_instance: instance,
        target,
    }
}

#[test]
fn slide_refuses_a_floor_without_black_ice() {
    let mut world = World::new(netrunner(1, 6, 4));
    let mut nr = NetrunState::start(EntityId(1), NetArchId("a".into()), 4);
    nr.floors = vec![Floor::Password { dv: DV(6) }];
    world.netrun = Some(nr);
    let before = world.clone();
    let mut rng = Rng::seed_from_u64(0);
    let slide = SlideAction { netrunner: EntityId(1), target_ice_floor: 0, luck_to_spend: 0 };
    assert_eq!(slide.resolve(&mut world, &mut rng), Err(RulesError::SlideTargetNotBlackIce { floor_idx: 0 }));
    let past_end = SlideAction { netrunner: EntityId(1), target_ice_floor: 5, luck_to_spend: 0 };
    assert_eq!(past_end.resolve(&mut world, &mut rng), Err(RulesError::SlideTargetNotBlackIce { floor_idx: 5 }));
    assert_eq!(world, before);
}

#[test]
fn attacker_errors_leave_the_world_alone() {
    let catalog = Catalog::new(vec![
        ("banhammer".to_string(), banhammer()),
        ("armor".to_string(), program("armor", ProgramClass::Defender, 0, 0, ProgramEffect::NullifyAttackerAtk)),
    ]);
    let mut world = World::new(netrunner(1, 6, 4));
    let mut nr = NetrunState::start(EntityId(1), NetArchId("a".into()), 4);
    let attacker = nr.rez_program(ProgramId("banhammer".into()), 0);
    let stray = nr.rez_program(ProgramId("mystery".into()), 3);
    world.netrun = Some(nr);
    let before = world.clone();
    let mut rng = Rng::seed_from_u64(3);

    let r = activate_attacker(&mut world, &catalog, attack("nothing", attacker, AttackTarget::BlackIce(0)), &mut rng);
    assert_eq!(r, Err(RulesError::ProgramNotFound(ProgramId("nothing".into()))));

    let r = activate_attacker(&mut world, &catalog, attack("armor", attacker, AttackTarget::BlackIce(0)), &mut rng);
    assert_eq!(
        r,
        Err(RulesError::WrongProgramClass {
            program: ProgramId("armor".into()),
            expected: "Attacker (AntiPersonnelAttacker or AntiProgramAttacker)",
            got: "Defender".into(),
            found: "Defender".into(),
        })
    );

    let mut stranger = attack("banhammer", attacker, AttackTarget::BlackIce(0));
    stranger.netrunner = EntityId(77);
    let r = activate_attacker(&mut world, &catalog, stranger, &mut rng);
    assert_eq!(r, Err(RulesError::EntityNotFound(EntityId(77))));

    let r = activate_attacker(
        &mut world,
        &catalog,
        attack("banhammer", attacker, AttackTarget::Program(ProgramInstanceId::from_counter(40))),
        &mut rng,
    );
    assert_eq!(r, Err(RulesError::NetrunNotActive));

    let r = activate_attacker(&mut world, &catalog, attack("banhammer", attacker, AttackTarget::Program(stray)), &mut rng);
    assert_eq!(r, Err(RulesError::ProgramNotFound(ProgramId("mystery".into()))));

    let r = activate_attacker(&mut world, &catalog, attack("banhammer", attacker, AttackTarget::Netrunner(EntityId(55))), &mut rng);
    assert_eq!(r, Err(RulesError::EntityNotFound(EntityId(55))));

    assert_eq!(world, before);
}

#[test]
fn hellbolt_burns_the_target_netrunner() {
    let catalog = Catalog::new(vec![("hellbolt".to_string(), hellbolt())]);
    let mut found_hit = false;
    for seed in 0u64..100 {
        let mut world = World::new(netrunner(1, 8, 6));
        let mut target = netrunner(2, 1, 1);
        target.wounds.current_hp = 30;
        world.npcs.push(target);
        let mut nr = NetrunState::start(EntityId(1), NetArchId("a".into()), 6);
        let bolt = nr.rez_program(ProgramId("hellbolt".into()), 0);
        world.netrun = Some(nr);
        let mut rng = Rng::seed_from_u64(seed);
        let o = activate_attacker(&mut world, &catalog, attack("hellbolt", bolt, AttackTarget::Netrunner(EntityId(2))), &mut rng)
            .unwrap();
        assert!(o.self_derezzed);
        match o.effect_applied {
            AttackerEffectApplied::NetrunnerBrainDamage { hp_lost } => {
                found_hit = true;
                assert_eq!(o.damage_rolls.len(), 2);
                assert_eq!(o.damage_total, o.damage_rolls.iter().map(|d| *d as u16).sum::<u16>());
                assert_eq!(hp_lost as u16, o.damage_total);
                assert_eq!(world.npcs[0].wounds.current_hp, 30 - hp_lost as i16);
            }
            AttackerEffectApplied::Missed => assert_eq!(world.npcs[0].wounds.current_hp, 30),
            other => panic!("unexpected effect {other:?}"),
        }
    }
    assert!(found_hit);
}

#[test]
fn banhammer_damage_lowers_the_target_rez() {
    let catalog = Catalog::new(vec![
        ("banhammer".to_string(), banhammer()),
        ("eraser".to_string(), program("eraser", ProgramClass::Booster, 0, 0, ProgramEffect::NullifyAttackerAtk)),
    ]);
    let mut checked = 0;
    for seed in 0u64..40 {
        let mut world = World::new(netrunner(1, 8, 6));
        let mut nr = NetrunState::start(EntityId(1), NetArchId("a".into()), 6);
        let target = nr.rez_program(ProgramId("eraser".into()), 30);
        let hammer = nr.rez_program(ProgramId("banhammer".into()), 0);
        world.netrun = Some(nr);
        let mut rng = Rng::seed_from_u64(seed);
        let o = activate_attacker(&mut world, &catalog, attack("banhammer", hammer, AttackTarget::Program(target)), &mut rng)
            .unwrap();
        let nr = world.netrun.as_ref().unwrap();
        if let AttackerEffectApplied::ProgramDamage { rez_lost, derezzed } = o.effect_applied {
            checked += 1;
            assert_eq!(o.damage_rolls.len(), 3);
            assert_eq!(rez_lost as u16, o.damage_total);
            assert!(!derezzed);
            assert_eq!(nr.rezzed_programs.len(), 1);
            assert_eq!(nr.rezzed_programs[0].instance_id, target);
            assert_eq!(nr.rezzed_programs[0].current_rez, 30 - rez_lost);
        }
    }
    assert!(checked > 0);
}

#[test]
fn booster_activation_errors() {
    let catalog = Catalog::new(vec![("banhammer".to_string(), banhammer())]);
    let mut world = World::new(netrunner(1, 6, 4));
    world.netrun = Some(NetrunState::start(EntityId(1), NetArchId("a".into()), 4));
    let before = world.clone();
    let r = activate_booster_or_defender(
        &mut world,
        &catalog,
        ActivateProgram { netrunner: EntityId(1), program: ProgramId("banhammer".into()) },
    );
    assert_eq!(
        r.unwrap_err(),
        RulesError::ProgramWrongClass {
            program: ProgramId("banhammer".into()),
            expected: "Booster or Defender",
            got: "AntiProgramAttacker".into(),
        }
    );
    assert_eq!(world, before);
    assert_eq!(class_name(ProgramClass::AntiPersonnelAttacker), "AntiPersonnelAttacker");
    assert_eq!(class_name(ProgramClass::Booster), "Booster");
}

#[test]
fn activation_for_a_missing_netrunner_still_rezzes() {
    let catalog = Catalog::new(vec![(
        "armor".to_string(),
        program("armor", ProgramClass::Defender, 0, 0, ProgramEffect::BlockBlackIceDamage { reduction: 4 }),
    )]);
    let mut world = World::new(netrunner(1, 6, 4));
    world.netrun = Some(NetrunState::start(EntityId(1), NetArchId("a".into()), 4));
    let r = activate_booster_or_defender(
        &mut world,
        &catalog,
        ActivateProgram { netrunner: EntityId(9), program: ProgramId("armor".into()) },
    );
    assert_eq!(r.unwrap_err(), RulesError::EntityNotFound(EntityId(9)));
    assert_eq!(world.netrun.as_ref().unwrap().rezzed_programs.len(), 1);
    assert!(world.pc.effects.effects.is_empty());
}

#[test]
fn black_ice_turn_refuses_unknown_and_demon_ice() {
    let catalog = Catalog::new(vec![(
        "balron".to_string(),
        ice("balron", BlackIceClass::Demon, 4, 4, BlackIceEffect::DestroyRandomProgram),
    )]);
    let mut world = World::new(netrunner(1, 6, 4));
    let before = world.clone();
    let mut rng = Rng::seed_from_u64(0);
    let r = black_ice_take_turn(&mut world, &catalog, EntityId(1), &BlackIceId("nope".into()), &mut rng);
    assert_eq!(r, Err(RulesError::EntityNotFound(EntityId(1))));
    let r = black_ice_take_turn(&mut world, &catalog, EntityId(1), &BlackIceId("balron".into()), &mut rng);
    assert_eq!(r, Err(RulesError::EntityNotFound(EntityId(1))));
    assert_eq!(world, before);
}

#[test]
fn anti_program_ice_without_programs_hits_nothing() {
    let catalog = Catalog::new(vec![(
        "dragon".to_string(),
        ice(
            "dragon",
            BlackIceClass::AntiProgram,
            4,
            30,
            BlackIceEffect::ProgramDamageDestroyOnDerezz { dice: DiceSpec { n: 6, die: DieKind::D6 } },
        ),
    )]);
    for seed in 0u64..20 {
        let mut world = World::new(netrunner(1, 6, 4));
        world.netrun = Some(NetrunState::start(EntityId(1), NetArchId("a".into()), 4));
        let before = world.clone();
        let mut rng = Rng::seed_from_u64(seed);
        let t = black_ice_take_turn(&mut world, &catalog, EntityId(1), &BlackIceId("dragon".into()), &mut rng).unwrap();
        assert!(!t.netrunner_target);
        assert!(t.effect_applied.is_none());
        assert!(!t.attack_breakdown.success);
        assert_eq!(world, before);
    }
}

#[test]
fn anti_program_ice_hits_remove_a_program() {
    let catalog = Catalog::new(vec![(
        "killer".to_string(),
        ice(
            "killer",
            BlackIceClass::AntiProgram,
            4,
            40,
            BlackIceEffect::ProgramDamageDestroyOnDerezz { dice: DiceSpec { n: 4, die: DieKind::D6 } },
        ),
    )]);
    let mut destroyed = std::collections::HashSet::new();
    for seed in 0u64..60 {
        let mut world = World::new(netrunner(1, 6, 4));
        let mut nr = NetrunState::start(EntityId(1), NetArchId("a".into()), 4);
        let a = nr.rez_program(ProgramId("a".into()), 1);
        let b = nr.rez_program(ProgramId("b".into()), 1);
        world.netrun = Some(nr);
        let mut rng = Rng::seed_from_u64(seed);
        let t = black_ice_take_turn(&mut world, &catalog, EntityId(1), &BlackIceId("killer".into()), &mut rng).unwrap();
        let e = t.effect_applied.expect("ATK 40 always beats REZ 1");
        assert_eq!(e.kind, "ProgramDamageDestroyOnDerezz");
        assert_eq!(e.damage_to_netrunner, 0);
        let gone = e.program_destroyed.unwrap();
        assert!(gone == a || gone == b);
        let left = &world.netrun.as_ref().unwrap().rezzed_programs;
        assert_eq!(left.len(), 1);
        assert!(left[0].instance_id != gone);
        destroyed.insert(gone.0);
    }
    assert_eq!(destroyed.len(), 2, "the target is picked at random");
}

#[test]
fn lost_encounter_puts_the_ice_on_top_of_the_combat() {
    let catalog = Catalog::new(vec![(
        "asp".to_string(),
        ice("asp", BlackIceClass::AntiPersonnel, 40, 4, BlackIceEffect::DestroyRandomProgram),
    )]);
    let mut world = World::new(netrunner(1, 2, 1));
    let mut rng = Rng::seed_from_u64(5);
    let combat = CombatState::start(vec![EntityId(1)], &world, &mut rng);
    let top = combat.queue[0].score;
    world.combat = Some(combat);
    let o = encounter_black_ice(
        &mut world,
        &catalog,
        BlackIceEncounter { netrunner: EntityId(1), ice_template: BlackIceId("asp".into()), floor: 2 },
        &mut rng,
    )
    .unwrap();
    assert!(!o.speed_contest.attacker_wins);
    assert!(o.combat_started);
    let e = o.immediate_effect_applied.unwrap();
    assert_eq!(e.kind, "DestroyRandomProgram");
    assert_eq!(e.damage_to_netrunner, 0);
    let q = &world.combat.as_ref().unwrap().queue;
    assert_eq!(q.len(), 2);
    assert_eq!(q[0].entity, ice_entity_id(EntityId(1), 2));
    assert_eq!(q[0].score, top + 1);
    assert_eq!(o.speed_contest.defender_breakdown.stat_value, 40);
}

#[test]
fn encounter_with_unknown_ice_or_netrunner_fails() {
    let catalog = Catalog::new(vec![(
        "asp".to_string(),
        ice("asp", BlackIceClass::AntiPersonnel, 4, 4, BlackIceEffect::DestroyRandomProgram),
    )]);
    let mut world = World::new(netrunner(1, 2, 1));
    let before = world.clone();
    let mut rng = Rng::seed_from_u64(5);
    let r = encounter_black_ice(
        &mut world,
        &catalog,
        BlackIceEncounter { netrunner: EntityId(1), ice_template: BlackIceId("nope".into()), floor: 0 },
        &mut rng,
    );
    assert_eq!(r.err(), Some(RulesError::EntityNotFound(EntityId(1))));
    let r = encounter_black_ice(
        &mut world,
        &catalog,
        BlackIceEncounter { netrunner: EntityId(8), ice_template: BlackIceId("asp".into()), floor: 0 },
        &mut rng,
    );
    assert_eq!(r.err(), Some(RulesError::EntityNotFound(EntityId(8))));
    assert_eq!(world, before);
}

#[test]
fn unknown_demon_message_names_the_slug() {
    let catalog: Catalog<Demon> = Catalog::new(vec![]);
    let r = DemonState::from_template(&catalog, &DemonId("kraken".into()), vec![]);
    assert_eq!(
        r.unwrap_err(),
        RulesError::CatalogLoadFailed {
            path: "in-memory".into(),
            source: "demon slug 'kraken' not found in catalog".into(),
        }
    );
}

#[test]
fn architecture_ids_are_eight_hex_digits() {
    let mut ids = std::collections::HashSet::new();
    for seed in 0u64..30 {
        let mut rng = Rng::seed_from_u64(seed);
        let spec = NetArchSpec { price: PriceTier::VeryExpensive, intent: SecurityIntent::Balanced, fixer_rank_required: 4 };
        let arch = generate_net_architecture(&spec, &mut rng);
        let id = &arch.id.0;
        assert!(id.starts_with("arch-"), "{id}");
        let hex = &id[5..];
        assert_eq!(hex.len(), 8, "{id}");
        assert!(hex.chars().all(|c| c.is_ascii_hexdigit() && !c.is_ascii_uppercase()), "{id}");
        assert_eq!(arch.display_name, "Procedural NET Architecture");
        ids.insert(id.clone());
    }
    assert!(ids.len() > 1);
}

fn same_stream(a: &mut Rng, b: &mut Rng) -> bool {
    (0..8).all(|_| d10(a) == d10(b))
}

#[test]
fn zap_spends_a_net_action_even_past_the_budget() {
    let mut world = World::new(netrunner(1, 6, 8));
    let mut nr = NetrunState::start(EntityId(1), NetArchId("a".into()), 8);
    let target = nr.rez_program(ProgramId("eraser".into()), 10);
    world.netrun = Some(nr);
    let zap = ZapAction { netrunner: EntityId(1), target: ZapTarget::Program(target), luck_to_spend: 0 };
    let mut rng = Rng::seed_from_u64(4);
    zap.resolve(&mut world, &mut rng).unwrap();
    assert_eq!(world.netrun.as_ref().unwrap().net_actions_used_this_turn, 1);
    let max = world.netrun.as_ref().unwrap().net_actions_max_this_turn;
    world.netrun.as_mut().unwrap().net_actions_used_this_turn = max;
    let mut rng2 = Rng::seed_from_u64(9);
    assert!(zap.resolve(&mut world, &mut rng2).is_ok());
    assert_eq!(world.netrun.as_ref().unwrap().net_actions_used_this_turn, max + 1);
    world.netrun.as_mut().unwrap().net_actions_used_this_turn = 255;
    let _ = zap.resolve(&mut world, &mut rng2);
    assert_eq!(world.netrun.as_ref().unwrap().net_actions_used_this_turn, 255);
    let missing = ZapAction { netrunner: EntityId(7), target: ZapTarget::Program(target), luck_to_spend: 0 };
    let before = world.clone();
    let mut rng3 = Rng::seed_from_u64(9);
    assert_eq!(missing.resolve(&mut world, &mut rng3), Err(RulesError::EntityNotFound(EntityId(7))));
    assert_eq!(world, before);
    assert!(same_stream(&mut rng3, &mut Rng::seed_from_u64(9)));
}

#[test]
fn cloak_refusals_and_the_dice() {
    let mut world = World::new(netrunner(1, 6, 4));
    world.pc.luck_pool = 5;
    let cloak = CloakAction { netrunner: EntityId(1), luck_to_spend: 3 };
    let mut rng = Rng::seed_from_u64(2);
    assert_eq!(cloak.resolve(&mut world, &mut rng), Err(RulesError::NoActiveNetrun));
    assert_eq!(world.pc.luck_pool, 2, "the LUCK is spent before the netrun is checked");
    world.pc.luck_pool = 5;
    let mut nr = NetrunState::start(EntityId(1), NetArchId("a".into()), 4);
    nr.net_actions_used_this_turn = nr.net_actions_max_this_turn;
    world.netrun = Some(nr);
    let before = world.clone();
    assert_eq!(cloak.resolve(&mut world, &mut rng), Err(RulesError::NoNetActionsRemaining));
    assert_eq!(world, before);
    assert!(same_stream(&mut rng, &mut Rng::seed_from_u64(2)));
    assert_eq!(cloak_dv_of(300), DV(255));
    assert_eq!(cloak_dv_of(-4), DV(0));
    assert_eq!(cloak_dv_of(17), DV(17));
}

#[test]
fn demon_control_nodes_name_control_node_floors() {
    let mut with_nodes = 0;
    for seed in 0u64..200 {
        let mut rng = Rng::seed_from_u64(seed);
        let spec = NetArchSpec { price: PriceTier::Luxury, intent: SecurityIntent::Killer, fixer_rank_required: 4 };
        let arch = generate_net_architecture(&spec, &mut rng);
        for f in &arch.floors {
            if let Floor::Demon { control_nodes, .. } = f {
                let expected: Vec<usize> = arch
                    .floors
                    .iter()
                    .enumerate()
                    .filter(|(_, g)| matches!(g, Floor::ControlNode { .. }))
                    .map(|(i, _)| i)
                    .collect();
                assert_eq!(*control_nodes, expected, "seed {seed}");
                if matches!(arch.floors.last(), Some(Floor::ControlNode { .. })) {
                    with_nodes += 1;
                }
            }
        }
    }
    assert!(with_nodes > 0, "some goal floor is a Control Node");
}

#[test]
fn refusals_before_the_roll_leave_the_generator_alone() {
    let catalog = Catalog::new(vec![("banhammer".to_string(), banhammer())]);
    let mut world = World::new(netrunner(1, 6, 4));
    world.netrun = Some(NetrunState::start(EntityId(1), NetArchId("a".into()), 4));
    let mut rng = Rng::seed_from_u64(21);
    let r = activate_attacker(
        &mut world,
        &catalog,
        attack("nothing", ProgramInstanceId::from_counter(1), AttackTarget::BlackIce(0)),
        &mut rng,
    );
    assert!(r.is_err());
    let mut stranger = attack("banhammer", ProgramInstanceId::from_counter(1), AttackTarget::BlackIce(0));
    stranger.netrunner = EntityId(5);
    assert!(activate_attacker(&mut world, &catalog, stranger, &mut rng).is_err());
    assert!(same_stream(&mut rng, &mut Rng::seed_from_u64(21)));
}

#[test]
fn generator_tables_read_their_rolls() {
    assert_eq!(dv_for_roll(DV(8), DV(6), 7), DV(8));
    assert_eq!(dv_for_roll(DV(8), DV(6), 8), DV(6));
    assert_eq!(floor_kind_for_roll(SecurityIntent::Defensive, 40), 0);
    assert_eq!(floor_kind_for_roll(SecurityIntent::Defensive, 41), 1);
    assert_eq!(floor_kind_for_roll(SecurityIntent::Killer, 20), 2);
    assert_eq!(floor_kind_for_roll(SecurityIntent::Killer, 21), 3);
    assert_eq!(floor_kind_for_roll(SecurityIntent::Offensive, 35), 2);
    assert_eq!(floor_kind_for_roll(SecurityIntent::Balanced, 50), 1);
    assert_eq!(file_contents_for_roll(DV(8), 6), FileContents::Data("Corporate data".into()));
    assert_eq!(file_contents_for_roll(DV(8), 7), FileContents::Decoy);
    assert_eq!(file_contents_for_roll(DV(8), 9), FileContents::Encrypted { unlock_dv: DV(10) });
    assert_eq!(control_target_for_roll(0), ControlTarget::Camera("security camera".into()));
    assert_eq!(control_target_for_roll(6), ControlTarget::LaserGrid("laser grid".into()));
    assert_eq!(control_target_for_roll(7), ControlTarget::Custom("custom system".into()));
    assert!(demon_wanted(SecurityIntent::Killer, false, 5, 1));
    assert!(!demon_wanted(SecurityIntent::Killer, true, 4, 1));
    assert!(demon_wanted(SecurityIntent::Balanced, true, 8, 3));
    assert!(!demon_wanted(SecurityIntent::Balanced, true, 8, 4));
    assert!(!demon_wanted(SecurityIntent::Offensive, false, 8, 1));
    assert!(demon_wanted(SecurityIntent::Defensive, true, 8, 1));
    assert!(!demon_wanted(SecurityIntent::Defensive, true, 8, 2));
}

#[test]
fn attacker_success_flag_is_the_hit() {
    let catalog = Catalog::new(vec![("banhammer".to_string(), banhammer())]);
    let mut saw_tie_or_near = 0;
    for seed in 0u64..200 {
        let mut world = World::new(netrunner(1, 1, 1));
        let mut nr = NetrunState::start(EntityId(1), NetArchId("a".into()), 1);
        let hammer = nr.rez_program(ProgramId("banhammer".into()), 0);
        world.netrun = Some(nr);
        let mut rng = Rng::seed_from_u64(seed);
        let o = activate_attacker(&mut world, &catalog, attack("banhammer", hammer, AttackTarget::BlackIce(0)), &mut rng)
            .unwrap();
        let missed = o.effect_applied == AttackerEffectApplied::Missed;
        assert_eq!(o.breakdown.success, !missed, "seed {seed}");
        if o.breakdown.margin == 0 {
            saw_tie_or_near += 1;
            assert!(!o.breakdown.success, "a tie goes to the defender");
        }
    }
    assert!(saw_tie_or_near > 0);
}

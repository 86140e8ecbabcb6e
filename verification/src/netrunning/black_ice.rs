//! Black ICE: the encounter speed contest and the ICE's attack turns.
//!
//! Encounter: the Netrunner's `INT + Interface + 1d10` against the ICE's
//! `SPD + 1d10` (Netrunner first). The Netrunner must strictly win; else
//! the ICE applies its effect at once and, when a combat is in progress,
//! enters the initiative queue at the top.
//!
//! Turn: Anti-Personnel ICE rolls `ATK + 1d10` against the Netrunner's
//! `INT + Interface + 1d10`; Anti-Program ICE against a random rezzed
//! program's `REZ + 1d10` (REZ stands in for DEF, which rezzed programs
//! do not carry), and a hit removes that program. Ties go to the defender.

use vstd::prelude::*;
use crate::catalog::{BlackIce, BlackIceClass, BlackIceEffect, BlackIceId, Catalog, DiceSpec};
use crate::combat::max_score;
use crate::dice::{
    d10_with_crits, d6_rolls, nd6_total, ndn_d6, pick_index, sum_die_rolls, sum_rolls,
};
use crate::error::RulesError;
use crate::netrunning::state::{derezzed, first_instance_index, NetrunState, ProgramInstanceId};
use crate::resolution::{against, spec_against, CheckBreakdown, OpposedOutcome};
use crate::types::{EntityId, DV};
use crate::world::{character_replaced, same_characters, World};
use rand_chacha::ChaCha20Rng;

verus! {

/// A Netrunner meeting the Black ICE of a floor.
#[derive(Clone, Debug, PartialEq, Eq)]
pub struct BlackIceEncounter {
    pub netrunner: EntityId,
    pub ice_template: BlackIceId,
    pub floor: usize,
}

/// Outcome of an encounter.
#[derive(Clone, Debug, PartialEq, Eq)]
pub struct BlackIceEncounterOutcome {
    /// The speed contest; the Netrunner is the attacker.
    pub speed_contest: OpposedOutcome,
    /// The ICE's effect, applied when the ICE won.
    pub immediate_effect_applied: Option<BlackIceEffectApplied>,
    /// Whether the ICE won and combat began.
    pub combat_started: bool,
}

/// One effect the ICE applied.
#[derive(Clone, Debug, PartialEq, Eq)]
pub struct BlackIceEffectApplied {
    /// Name of the effect.
    pub kind: String,
    /// Brain damage dealt to the Netrunner.
    pub damage_to_netrunner: u16,
    /// The rezzed program removed, if any.
    pub program_destroyed: Option<ProgramInstanceId>,
}

/// Outcome of one ICE turn.
#[derive(Clone, Debug, PartialEq, Eq)]
pub struct BlackIceTurn {
    /// Whether the Netrunner was the target (Anti-Personnel).
    pub netrunner_target: bool,
    /// The ICE's `ATK + 1d10`, with the defender's total as DV.
    pub attack_breakdown: CheckBreakdown,
    /// The effect applied on a hit.
    pub effect_applied: Option<BlackIceEffectApplied>,
}

/// The name of an effect.
pub open spec fn spec_effect_kind_label(effect: BlackIceEffect) -> Seq<char> {
    match effect {
        BlackIceEffect::DestroyRandomProgram => "DestroyRandomProgram"@,
        BlackIceEffect::BrainDamageAndForceJackOut { .. } => "BrainDamageAndForceJackOut"@,
        BlackIceEffect::BrainDamageAndCyberdeckFire { .. } => "BrainDamageAndCyberdeckFire"@,
        BlackIceEffect::BrainDamageAndJackOutLock { .. } => "BrainDamageAndJackOutLock"@,
        BlackIceEffect::StatPenaltyIntRefDex { .. } => "StatPenaltyIntRefDex"@,
        BlackIceEffect::DerezzRandomDefenderAndBrainDamage { .. } => "DerezzRandomDefenderAndBrainDamage"@,
        BlackIceEffect::StatPenaltyMove { .. } => "StatPenaltyMove"@,
        BlackIceEffect::SlideCheckPenalty { .. } => "SlideCheckPenalty"@,
        BlackIceEffect::BrainDamageAndNetActionPenalty { .. } => "BrainDamageAndNetActionPenalty"@,
        BlackIceEffect::ProgramDamageDestroyOnDerezz { .. } => "ProgramDamageDestroyOnDerezz"@,
    }
}

/// The name of an effect.
pub fn effect_kind_label(effect: &BlackIceEffect) -> (s: String)
    ensures
        s@ == spec_effect_kind_label(*effect),
{
    match effect {
        BlackIceEffect::DestroyRandomProgram => String::from_str("DestroyRandomProgram"),
        BlackIceEffect::BrainDamageAndForceJackOut { .. } => String::from_str("BrainDamageAndForceJackOut"),
        BlackIceEffect::BrainDamageAndCyberdeckFire { .. } => String::from_str("BrainDamageAndCyberdeckFire"),
        BlackIceEffect::BrainDamageAndJackOutLock { .. } => String::from_str("BrainDamageAndJackOutLock"),
        BlackIceEffect::StatPenaltyIntRefDex { .. } => String::from_str("StatPenaltyIntRefDex"),
        BlackIceEffect::DerezzRandomDefenderAndBrainDamage { .. } => String::from_str(
            "DerezzRandomDefenderAndBrainDamage",
        ),
        BlackIceEffect::StatPenaltyMove { .. } => String::from_str("StatPenaltyMove"),
        BlackIceEffect::SlideCheckPenalty { .. } => String::from_str("SlideCheckPenalty"),
        BlackIceEffect::BrainDamageAndNetActionPenalty { .. } => String::from_str(
            "BrainDamageAndNetActionPenalty",
        ),
        BlackIceEffect::ProgramDamageDestroyOnDerezz { .. } => String::from_str(
            "ProgramDamageDestroyOnDerezz",
        ),
    }
}

/// The dice of an effect that deals brain damage, if it does.
pub open spec fn damage_dice(effect: BlackIceEffect) -> Option<DiceSpec> {
    match effect {
        BlackIceEffect::BrainDamageAndForceJackOut { dice } => Some(dice),
        BlackIceEffect::BrainDamageAndCyberdeckFire { dice, .. } => Some(dice),
        BlackIceEffect::BrainDamageAndJackOutLock { dice } => Some(dice),
        BlackIceEffect::DerezzRandomDefenderAndBrainDamage { dice } => Some(dice),
        BlackIceEffect::BrainDamageAndNetActionPenalty { dice, .. } => Some(dice),
        _ => None,
    }
}

/// The effects that deal brain damage are Giant's, Hellhound's, Kraken's,
/// Raven's and Wisp's, each with its own dice; no other effect does.
pub proof fn lemma_damage_dice_by_effect(effect: BlackIceEffect)
    ensures
        effect matches BlackIceEffect::BrainDamageAndForceJackOut { dice } ==> damage_dice(effect) == Some(dice),
        effect matches BlackIceEffect::BrainDamageAndCyberdeckFire { dice, .. } ==> damage_dice(effect) == Some(
            dice,
        ),
        effect matches BlackIceEffect::BrainDamageAndJackOutLock { dice } ==> damage_dice(effect) == Some(dice),
        effect matches BlackIceEffect::DerezzRandomDefenderAndBrainDamage { dice } ==> damage_dice(effect) == Some(
            dice,
        ),
        effect matches BlackIceEffect::BrainDamageAndNetActionPenalty { dice, .. } ==> damage_dice(effect) == Some(
            dice,
        ),
        effect is DestroyRandomProgram || effect is StatPenaltyIntRefDex || effect is StatPenaltyMove
            || effect is SlideCheckPenalty || effect is ProgramDamageDestroyOnDerezz ==> damage_dice(effect) is None,
{
}

/// `old` with `netrunner` having taken `damage` brain damage (capped at
/// `i16::MAX`); unchanged when the damage is 0 or there is no such character.
pub open spec fn brain_damaged(old: World, new: World, netrunner: EntityId, damage: int) -> bool {
    if damage > 0 && old.spec_entity(netrunner) is Some {
        &&& character_replaced(
            old,
            new,
            netrunner,
            old.spec_entity(netrunner).unwrap().after_damage(
                (if damage > i16::MAX { i16::MAX as int } else { damage }) as i16,
            ),
        )
        &&& new.netrun == old.netrun
        &&& new.combat == old.combat
    } else {
        new == old
    }
}

/// Apply an ICE effect to the Netrunner: roll its brain-damage dice (if
/// any; Liche and Scorpion roll their penalty dice without damage) and
/// take the damage off the Netrunner's HP.
pub fn apply_ice_effect_to_netrunner(
    world: &mut World,
    netrunner: EntityId,
    effect: &BlackIceEffect,
    class: BlackIceClass,
    rng: &mut ChaCha20Rng,
) -> (applied: BlackIceEffectApplied)
    ensures
        applied.kind@ == spec_effect_kind_label(*effect),
        applied.program_destroyed is None,
        match damage_dice(*effect) {
            Some(dice) => exists|rolls: Seq<u8>|
                d6_rolls(rolls, dice.n) && applied.damage_to_netrunner == #[trigger] sum_rolls(rolls),
            None => applied.damage_to_netrunner == 0,
        },
        match *effect {
            BlackIceEffect::BrainDamageAndForceJackOut { dice } => nd6_total(dice.n, applied.damage_to_netrunner as int)
                && dice.n <= applied.damage_to_netrunner <= 6 * dice.n,
            BlackIceEffect::BrainDamageAndCyberdeckFire { dice, .. } => nd6_total(
                dice.n,
                applied.damage_to_netrunner as int,
            ) && dice.n <= applied.damage_to_netrunner <= 6 * dice.n,
            BlackIceEffect::BrainDamageAndJackOutLock { dice } => nd6_total(dice.n, applied.damage_to_netrunner as int)
                && dice.n <= applied.damage_to_netrunner <= 6 * dice.n,
            BlackIceEffect::DerezzRandomDefenderAndBrainDamage { dice } => nd6_total(
                dice.n,
                applied.damage_to_netrunner as int,
            ) && dice.n <= applied.damage_to_netrunner <= 6 * dice.n,
            BlackIceEffect::BrainDamageAndNetActionPenalty { dice, .. } => nd6_total(
                dice.n,
                applied.damage_to_netrunner as int,
            ) && dice.n <= applied.damage_to_netrunner <= 6 * dice.n,
            _ => applied.damage_to_netrunner == 0,
        },
        brain_damaged(*old(world), *final(world), netrunner, applied.damage_to_netrunner as int),
{
    let kind = effect_kind_label(effect);
    let damage: u16 = match effect {
        BlackIceEffect::BrainDamageAndForceJackOut { dice } => {
            let rolls = ndn_d6(dice.n, rng);
            sum_die_rolls(&rolls)
        },
        BlackIceEffect::BrainDamageAndCyberdeckFire { dice, .. } => {
            let rolls = ndn_d6(dice.n, rng);
            sum_die_rolls(&rolls)
        },
        BlackIceEffect::BrainDamageAndJackOutLock { dice } => {
            let rolls = ndn_d6(dice.n, rng);
            sum_die_rolls(&rolls)
        },
        BlackIceEffect::DerezzRandomDefenderAndBrainDamage { dice } => {
            let rolls = ndn_d6(dice.n, rng);
            sum_die_rolls(&rolls)
        },
        BlackIceEffect::BrainDamageAndNetActionPenalty { dice, .. } => {
            let rolls = ndn_d6(dice.n, rng);
            sum_die_rolls(&rolls)
        },
        BlackIceEffect::StatPenaltyIntRefDex { dice } => {
            let _penalty = ndn_d6(dice.n, rng);
            0
        },
        BlackIceEffect::StatPenaltyMove { dice } => {
            let _penalty = ndn_d6(dice.n, rng);
            0
        },
        _ => 0,
    };
    if damage > 0 {
        let capped: i16 = if damage > 32767 { 32767 } else { damage as i16 };
        world.damage_entity(netrunner, capped);
    }
    BlackIceEffectApplied { kind, damage_to_netrunner: damage, program_destroyed: None }
}

/// The entity id of an ICE met by `netrunner` on `floor`.
pub open spec fn spec_ice_entity_id(netrunner: EntityId, floor: usize) -> EntityId {
    EntityId(netrunner.0 ^ (0xB1AC_1CE0_0000_0000u128 | (floor as u128)))
}

/// The entity id of an ICE met by `netrunner` on `floor`.
pub fn ice_entity_id(netrunner: EntityId, floor: usize) -> (e: EntityId)
    ensures
        e == spec_ice_entity_id(netrunner, floor),
{
    EntityId(netrunner.0 ^ (0xB1AC_1CE0_0000_0000u128 | floor as u128))
}

/// The speed contest of an encounter, from both checks.
pub open spec fn spec_speed_contest(runner: CheckBreakdown, ice: CheckBreakdown) -> OpposedOutcome {
    let wins = runner.final_value > ice.final_value;
    OpposedOutcome {
        attacker_breakdown: spec_against(runner, ice.final_value, wins),
        defender_breakdown: spec_against(ice, runner.final_value, ice.final_value >= runner.final_value),
        attacker_wins: wins,
    }
}

/// The Netrunner wins the speed contest only with a total strictly above the
/// ICE's: a tie goes to the ICE, which then acts first.
pub proof fn lemma_speed_contest_tie_goes_to_ice(runner: CheckBreakdown, ice: CheckBreakdown)
    ensures
        spec_speed_contest(runner, ice).attacker_wins <==> runner.final_value > ice.final_value,
        runner.final_value == ice.final_value ==> !spec_speed_contest(runner, ice).attacker_wins,
{
}

/// Resolve a Netrunner's encounter with a Black ICE.
pub fn encounter_black_ice(
    world: &mut World,
    catalog: &Catalog<BlackIce>,
    request: BlackIceEncounter,
    rng: &mut ChaCha20Rng,
) -> (r: Result<BlackIceEncounterOutcome, RulesError>)
    requires
        old(world).combat matches Some(c) ==> max_score(c.queue@) < i16::MAX,
    ensures
        catalog.lookup(request.ice_template.0@) is None ==> r == Err::<BlackIceEncounterOutcome, RulesError>(
            RulesError::EntityNotFound(request.netrunner),
        ) && *final(world) == *old(world) && *final(rng) == *old(rng),
        catalog.lookup(request.ice_template.0@) is Some && old(world).spec_entity(request.netrunner) is None
            ==> r == Err::<BlackIceEncounterOutcome, RulesError>(RulesError::EntityNotFound(request.netrunner))
            && *final(world) == *old(world) && *final(rng) == *old(rng),
        catalog.lookup(request.ice_template.0@) matches Some(ice) ==> (old(world).spec_entity(
            request.netrunner,
        ) matches Some(c) ==> (r matches Ok(o) && {
            let runner = o.speed_contest.attacker_breakdown;
            let runner_check = CheckBreakdown::spec_new(
                c.spec_current_int(),
                c.role_rank as i16,
                0,
                0,
                runner.d10,
                DV(0),
            );
            let ice_check = CheckBreakdown::spec_new(ice.spd as i16, 0, 0, 0, o.speed_contest.defender_breakdown.d10, DV(0));
            &&& runner.d10.wf()
            &&& o.speed_contest.defender_breakdown.d10.wf()
            &&& o.speed_contest == spec_speed_contest(runner_check, ice_check)
            &&& o.combat_started == !o.speed_contest.attacker_wins
            &&& o.speed_contest.attacker_wins ==> o.immediate_effect_applied is None && *final(world)
                == *old(world)
            &&& !o.speed_contest.attacker_wins ==> (o.immediate_effect_applied matches Some(e) && {
                &&& e.kind@ == spec_effect_kind_label(ice.effect)
                &&& e.program_destroyed is None
                &&& exists|mid: World|
                    #[trigger] brain_damaged(*old(world), mid, request.netrunner, e.damage_to_netrunner as int)
                        && same_characters(mid, *final(world)) && final(world).netrun == mid.netrun
                        && match mid.combat {
                        None => final(world).combat is None,
                        Some(c0) => final(world).combat matches Some(c1) && c1.queue@ == c0.queue@.insert(
                            0,
                            crate::combat::InitiativeEntry {
                                entity: spec_ice_entity_id(request.netrunner, request.floor),
                                score: (max_score(c0.queue@) + 1) as i16,
                            },
                        ),
                    }
            })
        })),
{
    let (ice_spd, ice_class, ice_effect) = match catalog.get(&request.ice_template.0) {
        Some(ice) => (ice.spd, ice.class, ice.effect),
        None => { return Err(RulesError::EntityNotFound(request.netrunner)); },
    };
    let (netrunner_int, interface_rank) = match world.entity(request.netrunner) {
        Some(actor) => (actor.current_int(), actor.role_rank as i16),
        None => { return Err(RulesError::EntityNotFound(request.netrunner)); },
    };
    let netrunner_d10 = d10_with_crits(rng);
    let ice_d10 = d10_with_crits(rng);
    let netrunner_bd = CheckBreakdown::new(netrunner_int, interface_rank, 0, 0, netrunner_d10, DV(0));
    let ice_bd = CheckBreakdown::new(ice_spd as i16, 0, 0, 0, ice_d10, DV(0));
    let netrunner_wins = netrunner_bd.final_value > ice_bd.final_value;
    let attacker_breakdown = against(netrunner_bd, ice_bd.final_value, netrunner_wins);
    let defender_breakdown = against(ice_bd, netrunner_bd.final_value, ice_bd.final_value >= netrunner_bd.final_value);
    let speed_contest = OpposedOutcome { attacker_breakdown, defender_breakdown, attacker_wins: netrunner_wins };
    if netrunner_wins {
        return Ok(BlackIceEncounterOutcome { speed_contest, immediate_effect_applied: None, combat_started: false });
    }
    let effect_applied = apply_ice_effect_to_netrunner(world, request.netrunner, &ice_effect, ice_class, rng);
    let ghost mid = *world;
    let ice_entity = ice_entity_id(request.netrunner, request.floor);
    match world.combat.as_mut() {
        Some(combat) => {
            combat.insert_at_top(ice_entity);
        },
        None => {},
    }
    proof {
        assert(brain_damaged(*old(world), mid, request.netrunner, effect_applied.damage_to_netrunner as int));
    }
    Ok(BlackIceEncounterOutcome { speed_contest, immediate_effect_applied: Some(effect_applied), combat_started: true })
}

/// `applied` is what [`apply_ice_effect_to_netrunner`] reports for `effect`,
/// and the world changed from `old` to `new` accordingly.
pub open spec fn effect_on_netrunner(
    old: World,
    new: World,
    netrunner: EntityId,
    effect: BlackIceEffect,
    applied: BlackIceEffectApplied,
) -> bool {
    &&& applied.kind@ == spec_effect_kind_label(effect)
    &&& applied.program_destroyed is None
    &&& match damage_dice(effect) {
        Some(dice) => exists|rolls: Seq<u8>|
            d6_rolls(rolls, dice.n) && applied.damage_to_netrunner == #[trigger] sum_rolls(rolls),
        None => applied.damage_to_netrunner == 0,
    }
    &&& brain_damaged(old, new, netrunner, applied.damage_to_netrunner as int)
}

/// The ICE's attack check: `ATK + 1d10`.
pub open spec fn ice_attack_check(atk: i16, d10: crate::dice::CritD10) -> CheckBreakdown {
    CheckBreakdown::spec_new(atk, 0, 0, 0, d10, DV(0))
}

/// An Anti-Personnel attack of `atk` with `effect` against `netrunner`, from
/// `old` to `new`, answered by `r`.
pub open spec fn attacked_netrunner(
    old: World,
    new: World,
    netrunner: EntityId,
    atk: i16,
    effect: BlackIceEffect,
    r: Result<BlackIceTurn, RulesError>,
) -> bool {
    match old.spec_entity(netrunner) {
        None => r == Err::<BlackIceTurn, RulesError>(RulesError::EntityNotFound(netrunner)) && new == old,
        Some(c) => r matches Ok(t) && {
            let a = t.attack_breakdown;
            let ice = ice_attack_check(atk, a.d10);
            &&& t.netrunner_target
            &&& a.d10.wf()
            &&& exists|def_d10: crate::dice::CritD10|
                #[trigger] def_d10.wf() && {
                    let def = CheckBreakdown::spec_new(
                        c.spec_current_int(),
                        c.role_rank as i16,
                        0,
                        0,
                        def_d10,
                        DV(0),
                    );
                    let hits = ice.final_value > def.final_value;
                    &&& a == spec_against(ice, def.final_value, hits)
                    &&& hits ==> (t.effect_applied matches Some(e) && effect_on_netrunner(
                        old,
                        new,
                        netrunner,
                        effect,
                        e,
                    ))
                    &&& !hits ==> t.effect_applied is None && new == old
                }
        },
    }
}

/// An Anti-Personnel ICE lands its attack only when `ATK + 1d10` is strictly
/// above the Netrunner's `INT + Interface + 1d10` (a tie goes to the
/// Netrunner); only then does its effect apply, and a miss changes nothing.
pub proof fn lemma_ice_attack_ties_favour_netrunner(
    old: World,
    new: World,
    netrunner: EntityId,
    atk: u8,
    effect: BlackIceEffect,
    r: Result<BlackIceTurn, RulesError>,
)
    requires
        attacked_netrunner(old, new, netrunner, atk as i16, effect, r),
        old.spec_entity(netrunner) is Some,
    ensures
        r matches Ok(t) && exists|def_d10: crate::dice::CritD10|
            #[trigger] def_d10.wf() && {
                let c = old.spec_entity(netrunner).unwrap();
                let hits = atk + t.attack_breakdown.d10.net > c.stats.int + c.role_rank + def_d10.net;
                &&& t.attack_breakdown.success == hits
                &&& (t.effect_applied is Some <==> hits)
                &&& !hits ==> new == old
            },
{
    let c = old.spec_entity(netrunner).unwrap();
    let t = r->Ok_0;
    let def_d10 = choose|def_d10: crate::dice::CritD10|
        #[trigger] def_d10.wf() && {
            let def = CheckBreakdown::spec_new(c.spec_current_int(), c.role_rank as i16, 0, 0, def_d10, DV(0));
            let hits = ice_attack_check(atk as i16, t.attack_breakdown.d10).final_value > def.final_value;
            &&& t.attack_breakdown == spec_against(
                ice_attack_check(atk as i16, t.attack_breakdown.d10),
                def.final_value,
                hits,
            )
            &&& hits ==> (t.effect_applied matches Some(e) && effect_on_netrunner(old, new, netrunner, effect, e))
            &&& !hits ==> t.effect_applied is None && new == old
        };
    crate::dice::lemma_crit_d10_net_range(def_d10);
    crate::dice::lemma_crit_d10_net_range(t.attack_breakdown.d10);
}

/// An Anti-Program attack of `atk` with `effect`, from `old` to `new`,
/// answered by `t`.
pub open spec fn attacked_program(
    old: World,
    new: World,
    atk: i16,
    effect: BlackIceEffect,
    t: BlackIceTurn,
) -> bool {
    let a = t.attack_breakdown;
    let ice = ice_attack_check(atk, a.d10);
    &&& !t.netrunner_target
    &&& a.d10.wf()
    &&& match old.netrun {
        Some(nr) if nr.rezzed_programs@.len() > 0 => exists|idx: int, def_d10: crate::dice::CritD10|
            #![trigger nr.rezzed_programs@[idx], def_d10.wf()]
            0 <= idx < nr.rezzed_programs@.len() && def_d10.wf() && {
                let prog = nr.rezzed_programs@[idx];
                let def = CheckBreakdown::spec_new(prog.current_rez as i16, 0, 0, 0, def_d10, DV(0));
                let hits = ice.final_value > def.final_value;
                &&& a == spec_against(ice, def.final_value, hits)
                &&& hits ==> (t.effect_applied == Some(
                    BlackIceEffectApplied {
                        kind: t.effect_applied.unwrap().kind,
                        damage_to_netrunner: 0,
                        program_destroyed: Some(prog.instance_id),
                    },
                ) && t.effect_applied.unwrap().kind@ == spec_effect_kind_label(effect)
                    && (new.netrun matches Some(nr2) && derezzed(nr, nr2, prog.instance_id))
                    && new == (World { netrun: new.netrun, ..old }))
                &&& !hits ==> t.effect_applied is None && new == old
            },
        _ => exists|def_d10: crate::dice::CritD10|
            #[trigger] def_d10.wf() && a == spec_against(
                ice,
                CheckBreakdown::spec_new(0, 0, 0, 0, def_d10, DV(0)).final_value,
                false,
            ) && t.effect_applied is None && new == old,
    }
}

/// An Anti-Program ICE picks one rezzed program and lands its attack only
/// when `ATK + 1d10` is strictly above that program's `REZ + 1d10` (a tie goes
/// to the program); a hit destroys that program and deals no brain damage, a
/// miss (or a netrun with no rezzed program) changes nothing.
pub proof fn lemma_ice_attack_on_program(old: World, new: World, atk: u8, effect: BlackIceEffect, t: BlackIceTurn)
    requires
        attacked_program(old, new, atk as i16, effect, t),
    ensures
        match old.netrun {
            Some(nr) if nr.rezzed_programs@.len() > 0 => exists|idx: int, def_d10: crate::dice::CritD10|
                #![trigger nr.rezzed_programs@[idx], def_d10.wf()]
                0 <= idx < nr.rezzed_programs@.len() && def_d10.wf() && {
                    let prog = nr.rezzed_programs@[idx];
                    let hits = atk + t.attack_breakdown.d10.net > prog.current_rez + def_d10.net;
                    &&& t.attack_breakdown.success == hits
                    &&& hits ==> (t.effect_applied is Some && t.effect_applied.unwrap().program_destroyed == Some(
                        prog.instance_id,
                    ) && t.effect_applied.unwrap().damage_to_netrunner == 0 && derezzed(
                        nr,
                        new.netrun.unwrap(),
                        prog.instance_id,
                    ))
                    &&& !hits ==> t.effect_applied is None && new == old
                },
            _ => t.effect_applied is None && new == old,
        },
{
    crate::dice::lemma_crit_d10_net_range(t.attack_breakdown.d10);
    match old.netrun {
        Some(nr) => {
            if nr.rezzed_programs@.len() > 0 {
                let (idx, def_d10) = choose|idx: int, def_d10: crate::dice::CritD10|
                    #![trigger nr.rezzed_programs@[idx], def_d10.wf()]
                    0 <= idx < nr.rezzed_programs@.len() && def_d10.wf() && {
                        let prog = nr.rezzed_programs@[idx];
                        let ice = ice_attack_check(atk as i16, t.attack_breakdown.d10);
                        let def = CheckBreakdown::spec_new(prog.current_rez as i16, 0, 0, 0, def_d10, DV(0));
                        let hits = ice.final_value > def.final_value;
                        &&& t.attack_breakdown == spec_against(ice, def.final_value, hits)
                        &&& hits ==> (t.effect_applied == Some(
                            BlackIceEffectApplied {
                                kind: t.effect_applied.unwrap().kind,
                                damage_to_netrunner: 0,
                                program_destroyed: Some(prog.instance_id),
                            },
                        ) && t.effect_applied.unwrap().kind@ == spec_effect_kind_label(effect)
                            && (new.netrun matches Some(nr2) && derezzed(nr, nr2, prog.instance_id))
                            && new == (World { netrun: new.netrun, ..old }))
                        &&& !hits ==> t.effect_applied is None && new == old
                    };
                crate::dice::lemma_crit_d10_net_range(def_d10);
                assert(nr.rezzed_programs@[idx] == nr.rezzed_programs@[idx]);
            }
        },
        None => {},
    }
}

/// One Anti-Personnel attack: the ICE's `ATK + 1d10` (rolled first) against
/// the Netrunner's `INT + Interface + 1d10`; the ICE must strictly win, and
/// then applies its effect to the Netrunner.
pub fn black_ice_attack_netrunner(
    world: &mut World,
    netrunner: EntityId,
    ice_atk: u8,
    ice_effect: &BlackIceEffect,
    rng: &mut ChaCha20Rng,
) -> (r: Result<BlackIceTurn, RulesError>)
    ensures
        attacked_netrunner(*old(world), *final(world), netrunner, ice_atk as i16, *ice_effect, r),
        old(world).spec_entity(netrunner) is None ==> *final(rng) == *old(rng),
{
    let (netrunner_int, interface_rank) = match world.entity(netrunner) {
        Some(actor) => (actor.current_int(), actor.role_rank as i16),
        None => { return Err(RulesError::EntityNotFound(netrunner)); },
    };
    let ice_d10 = d10_with_crits(rng);
    let netrunner_d10 = d10_with_crits(rng);
    let ice_attack = CheckBreakdown::new(ice_atk as i16, 0, 0, 0, ice_d10, DV(0));
    let netrunner_def = CheckBreakdown::new(netrunner_int, interface_rank, 0, 0, netrunner_d10, DV(0));
    let ice_hits = ice_attack.final_value > netrunner_def.final_value;
    let attack_breakdown = against(ice_attack, netrunner_def.final_value, ice_hits);
    let effect_applied = if ice_hits {
        Some(apply_ice_effect_to_netrunner(world, netrunner, ice_effect, BlackIceClass::AntiPersonnel, rng))
    } else {
        None
    };
    let r = Ok(BlackIceTurn { netrunner_target: true, attack_breakdown, effect_applied });
    proof {
        assert(netrunner_d10.wf());
    }
    r
}

/// One Anti-Program attack: a rezzed program is picked at random, then the
/// ICE's `ATK + 1d10` (rolled first) meets the program's `REZ + 1d10`; a
/// strict win removes the program. With no rezzed program the dice are
/// still rolled (against 0) and nothing is hit.
pub fn black_ice_attack_program(
    world: &mut World,
    ice_atk: u8,
    ice_effect: &BlackIceEffect,
    rng: &mut ChaCha20Rng,
) -> (t: BlackIceTurn)
    ensures
        attacked_program(*old(world), *final(world), ice_atk as i16, *ice_effect, t),
{
    let ghost nr0 = world.netrun;
    let (target, program_def): (Option<ProgramInstanceId>, i16) = match &world.netrun {
        Some(nr) => {
            if nr.rezzed_programs.len() > 0 {
                let idx = pick_index(nr.rezzed_programs.len(), rng);
                let prog = &nr.rezzed_programs[idx];
                (Some(ProgramInstanceId(prog.instance_id.0)), prog.current_rez as i16)
            } else {
                (None, 0)
            }
        },
        None => (None, 0),
    };
    let ice_d10 = d10_with_crits(rng);
    let prog_d10 = d10_with_crits(rng);
    let ice_attack = CheckBreakdown::new(ice_atk as i16, 0, 0, 0, ice_d10, DV(0));
    let prog_defence = CheckBreakdown::new(program_def, 0, 0, 0, prog_d10, DV(0));
    let ice_hits = target.is_some() && ice_attack.final_value > prog_defence.final_value;
    let attack_breakdown = against(ice_attack, prog_defence.final_value, ice_hits);
    let effect_applied = if ice_hits {
        let id = target.unwrap();
        match world.netrun.as_mut() {
            Some(nr) => {
                let _removed = nr.derez_program(ProgramInstanceId(id.0));
            },
            None => {},
        }
        Some(
            BlackIceEffectApplied {
                kind: effect_kind_label(ice_effect),
                damage_to_netrunner: 0,
                program_destroyed: Some(id),
            },
        )
    } else {
        None
    };
    proof {
        assert(prog_d10.wf());
    }
    BlackIceTurn { netrunner_target: false, attack_breakdown, effect_applied }
}

/// One attack turn of the Black ICE `ice` against `netrunner`: Anti-Personnel
/// ICE attacks the Netrunner, Anti-Program ICE a random rezzed program. Demon
/// turns are not taken here and are refused like an unknown ICE.
pub fn black_ice_take_turn(
    world: &mut World,
    catalog: &Catalog<BlackIce>,
    netrunner: EntityId,
    ice: &BlackIceId,
    rng: &mut ChaCha20Rng,
) -> (r: Result<BlackIceTurn, RulesError>)
    ensures
        match catalog.lookup(ice.0@) {
            None => r == Err::<BlackIceTurn, RulesError>(RulesError::EntityNotFound(netrunner))
                && *final(world) == *old(world) && *final(rng) == *old(rng),
            Some(data) => match data.class {
                BlackIceClass::AntiPersonnel => attacked_netrunner(
                    *old(world),
                    *final(world),
                    netrunner,
                    data.atk as i16,
                    data.effect,
                    r,
                ) && (old(world).spec_entity(netrunner) is None ==> *final(rng) == *old(rng)),
                BlackIceClass::AntiProgram => r matches Ok(t) && attacked_program(
                    *old(world),
                    *final(world),
                    data.atk as i16,
                    data.effect,
                    t,
                ),
                BlackIceClass::Demon => r == Err::<BlackIceTurn, RulesError>(
                    RulesError::EntityNotFound(netrunner),
                ) && *final(world) == *old(world) && *final(rng) == *old(rng),
            },
        },
{
    let (ice_atk, ice_class, ice_effect) = match catalog.get(&ice.0) {
        Some(data) => (data.atk, data.class, data.effect),
        None => { return Err(RulesError::EntityNotFound(netrunner)); },
    };
    match ice_class {
        BlackIceClass::AntiPersonnel => black_ice_attack_netrunner(world, netrunner, ice_atk, &ice_effect, rng),
        BlackIceClass::AntiProgram => Ok(black_ice_attack_program(world, ice_atk, &ice_effect, rng)),
        BlackIceClass::Demon => Err(RulesError::EntityNotFound(netrunner)),
    }
}

} // verus!

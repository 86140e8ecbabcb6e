//! Attacker programs: one NET Action, one attack, then the program derezzes.
//!
//! Attack: `INT + Interface + ATK + 1d10` against the target's defence:
//! a rezzed program's catalog `DEF + 1d10`, a Netrunner's
//! `INT + Interface + 1d10`, or a Black ICE's `1d10` (its DEF is not
//! tracked here). The attacker must strictly win. On a hit the program's
//! damage dice are rolled and applied; hit or miss, the attacking program
//! is then removed from the rezzed programs.

use vstd::prelude::*;
use crate::catalog::{Catalog, DiceSpec, DieKind, Program, ProgramClass, ProgramEffect};
use crate::dice::{d10, d10_with_crits, dice_rolls, ndn_d6, sum_die_rolls, sum_rolls, CritD10};
use crate::effects::ProgramId;
use crate::error::RulesError;
use crate::netrunning::programs::active::spec_class_name;
use crate::netrunning::programs::active::class_name;
use crate::netrunning::state::{
    derezzed, distinct_ids, first_instance_index, lemma_derez_removes_instance, lemma_distinct_first_index,
    lemma_swap_remove_keeps_ids, minted_ids, spec_instance_bits, NetrunState, ProgramInstanceId, RezzedProgram,
};
use crate::resolution::{saturate_to_u8, spec_saturate_to_u8, CheckBreakdown};
use crate::types::{EntityId, DV};
use crate::character::Character;
use crate::world::{character_replaced, World};
use rand_chacha::ChaCha20Rng;

verus! {

/// What an Attacker program is aimed at.
#[derive(Clone, Copy, Debug, PartialEq, Eq, Structural)]
pub enum AttackTarget {
    /// A rezzed program, by instance.
    Program(ProgramInstanceId),
    /// A Netrunner.
    Netrunner(EntityId),
    /// The Black ICE on this floor.
    BlackIce(usize),
}

/// A request to fire one Attacker program.
#[derive(Clone, Debug, PartialEq, Eq)]
pub struct AttackerActivation {
    pub netrunner: EntityId,
    /// Catalog slug of the attacking program.
    pub program: ProgramId,
    /// The rezzed instance that fires (and then derezzes).
    pub program_instance: ProgramInstanceId,
    pub target: AttackTarget,
}

/// What a hit did.
#[derive(Clone, Copy, Debug, PartialEq, Eq, Structural)]
pub enum AttackerEffectApplied {
    /// REZ taken from a rezzed program; `derezzed` when it reached 0.
    ProgramDamage { rez_lost: u8, derezzed: bool },
    /// Brain damage to a Netrunner.
    NetrunnerBrainDamage { hp_lost: u8 },
    /// REZ taken from a Black ICE (its REZ is not tracked here).
    BlackIceDamage { rez_lost: u8, derezzed: bool },
    /// The attack missed.
    Missed,
}

/// Outcome of an attack.
#[derive(Clone, Debug, PartialEq)]
pub struct AttackerOutcome {
    /// `INT + (Interface + ATK) + 1d10`, with the saturated defence as DV.
    pub breakdown: CheckBreakdown,
    /// Each damage die rolled.
    pub damage_rolls: Vec<u8>,
    /// The sum of `damage_rolls`.
    pub damage_total: u16,
    pub effect_applied: AttackerEffectApplied,
    /// Whether the attacking program was found and removed.
    pub self_derezzed: bool,
}

/// Whether programs of this class attack.
pub open spec fn is_attacker(class: ProgramClass) -> bool {
    class == ProgramClass::AntiPersonnelAttacker || class == ProgramClass::AntiProgramAttacker
}

/// Whether an effect is one an Attacker applies.
pub open spec fn is_attack_effect(effect: ProgramEffect) -> bool {
    !(effect is BoostCheck || effect is BlockBlackIceDamage || effect is NullifyAttackerAtk
        || effect is StopFirstNonBlackIceEffect)
}

/// The position of the first rezzed program with instance `id`.
pub open spec fn instance_index(nr: NetrunState, id: ProgramInstanceId) -> int {
    choose|i: int| first_instance_index(nr.rezzed_programs@, id, i)
}

/// Whether a program with instance `id` is rezzed.
pub open spec fn has_instance(nr: NetrunState, id: ProgramInstanceId) -> bool {
    exists|i: int| first_instance_index(nr.rezzed_programs@, id, i)
}

/// What the target adds to its defence die, or why it cannot be attacked.
pub open spec fn defence_bonus(world: World, catalog: Catalog<Program>, target: AttackTarget) -> Result<
    i16,
    RulesError,
> {
    match target {
        AttackTarget::Program(id) => match world.netrun {
            Some(nr) if has_instance(nr, id) => {
                let tp = nr.rezzed_programs@[instance_index(nr, id)];
                match catalog.lookup(tp.program.0@) {
                    Some(q) => Ok(q.def as i16),
                    None => Err(RulesError::ProgramNotFound(tp.program)),
                }
            },
            _ => Err(RulesError::NetrunNotActive),
        },
        AttackTarget::Netrunner(id) => match world.spec_entity(id) {
            Some(t) => Ok((t.spec_current_int() + t.role_rank) as i16),
            None => Err(RulesError::EntityNotFound(id)),
        },
        AttackTarget::BlackIce(_) => Ok(0),
    }
}

/// `damage` points taken off the HP of the character `id`, if there is one.
pub open spec fn hp_taken(old: World, new: World, id: EntityId, damage: int) -> bool {
    match old.spec_entity(id) {
        None => new == old,
        Some(t) => character_replaced(old, new, id, t.after_damage(damage as i16)) && new.netrun
            == old.netrun && new.combat == old.combat,
    }
}

/// `x` capped at `cap`.
pub open spec fn capped(x: int, cap: int) -> int {
    if x < cap { x } else { cap }
}

/// A hit of `effect` from `request`, taking the world from `old` to `new`,
/// with these damage rolls, total and reported effect.
pub open spec fn hit_applied(
    old: World,
    new: World,
    request: AttackerActivation,
    effect: ProgramEffect,
    rolls: Seq<u8>,
    total: u16,
    applied: AttackerEffectApplied,
) -> bool {
    match effect {
        ProgramEffect::AnyAttackerProgramDamage { dice_vs_non_black_ice, dice_vs_black_ice } => {
            let dice = if request.target is BlackIce {
                dice_vs_black_ice
            } else {
                dice_vs_non_black_ice
            };
            &&& dice_rolls(rolls, dice)
            &&& total == sum_rolls(rolls)
            &&& match request.target {
                AttackTarget::Program(id) => old.netrun matches Some(nr) && has_instance(nr, id) && {
                    let i = instance_index(nr, id);
                    let tp = nr.rezzed_programs@[i];
                    let lost = capped(total as int, tp.current_rez as int);
                    let left = tp.current_rez - lost;
                    let upd = nr.rezzed_programs@.update(i, RezzedProgram { current_rez: left as u8, ..tp });
                    &&& applied == AttackerEffectApplied::ProgramDamage {
                        rez_lost: lost as u8,
                        derezzed: left == 0,
                    }
                    &&& new == (World { netrun: new.netrun, ..old })
                    &&& new.netrun matches Some(nr2)
                    &&& new.netrun.unwrap() == (NetrunState {
                        rezzed_programs: new.netrun.unwrap().rezzed_programs,
                        ..nr
                    })
                    &&& left == 0 ==> new.netrun.unwrap().rezzed_programs@ == upd.update(
                        i,
                        upd.last(),
                    ).drop_last()
                    &&& left != 0 ==> new.netrun.unwrap().rezzed_programs@ == upd
                },
                AttackTarget::BlackIce(_) => applied == AttackerEffectApplied::BlackIceDamage {
                    rez_lost: capped(total as int, 255) as u8,
                    derezzed: false,
                } && new == old,
                AttackTarget::Netrunner(id) => applied == AttackerEffectApplied::NetrunnerBrainDamage {
                    hp_lost: capped(total as int, 255) as u8,
                } && hp_taken(old, new, id, capped(total as int, 255)),
            }
        },
        ProgramEffect::BrainDamageWithBurn { dice, .. } => brain_damage_hit(old, new, request, dice, rolls, total, applied),
        ProgramEffect::BrainDamageAndNetActionPenalty { dice, .. } => brain_damage_hit(
            old,
            new,
            request,
            dice,
            rolls,
            total,
            applied,
        ),
        _ => rolls.len() == 0 && total == 0 && applied == AttackerEffectApplied::NetrunnerBrainDamage {
            hp_lost: 0,
        } && new == old,
    }
}

/// What a hit deals: Banhammer and Sword roll their Black ICE dice against
/// Black ICE and their other dice against anything else; Hellbolt and
/// Vrizzbolt roll their dice as brain damage. The damage is the sum of the
/// dice; a Netrunner loses it (up to 255) from HP, a program loses it from
/// its REZ (down to 0, and is derezzed at 0). Other effects deal nothing.
pub proof fn lemma_hit_damage(
    old: World,
    new: World,
    request: AttackerActivation,
    effect: ProgramEffect,
    rolls: Seq<u8>,
    total: u16,
    applied: AttackerEffectApplied,
)
    requires
        hit_applied(old, new, request, effect, rolls, total, applied),
    ensures
        effect matches ProgramEffect::AnyAttackerProgramDamage { dice_vs_non_black_ice, dice_vs_black_ice } ==> {
            &&& request.target is BlackIce ==> dice_rolls(rolls, dice_vs_black_ice)
            &&& !(request.target is BlackIce) ==> dice_rolls(rolls, dice_vs_non_black_ice)
            &&& total == sum_rolls(rolls)
            &&& request.target is BlackIce ==> applied == (AttackerEffectApplied::BlackIceDamage {
                rez_lost: (if total < 255 { total } else { 255 }) as u8,
                derezzed: false,
            })
            &&& request.target matches AttackTarget::Program(id) ==> applied matches AttackerEffectApplied::ProgramDamage {
                rez_lost,
                derezzed,
            } && {
                let rez = old.netrun.unwrap().rezzed_programs@[instance_index(old.netrun.unwrap(), id)].current_rez;
                &&& rez_lost == (if total < rez { total as int } else { rez as int })
                &&& derezzed <==> total >= rez
            }
        },
        effect matches ProgramEffect::BrainDamageWithBurn { dice, .. } ==> dice_rolls(rolls, dice) && total
            == sum_rolls(rolls),
        effect matches ProgramEffect::BrainDamageAndNetActionPenalty { dice, .. } ==> dice_rolls(rolls, dice) && total
            == sum_rolls(rolls),
        (effect is AnyAttackerProgramDamage || effect is BrainDamageWithBurn || effect is BrainDamageAndNetActionPenalty)
            && request.target is Netrunner ==> applied == (AttackerEffectApplied::NetrunnerBrainDamage {
            hp_lost: (if total < 255 { total } else { 255 }) as u8,
        }),
        !(effect is AnyAttackerProgramDamage || effect is BrainDamageWithBurn || effect is BrainDamageAndNetActionPenalty)
            ==> total == 0 && new == old,
{
}

/// A brain-damage hit: the dice are rolled, and the damage (capped at 255)
/// is taken off the target when it is a Netrunner.
pub open spec fn brain_damage_hit(
    old: World,
    new: World,
    request: AttackerActivation,
    dice: DiceSpec,
    rolls: Seq<u8>,
    total: u16,
    applied: AttackerEffectApplied,
) -> bool {
    &&& dice_rolls(rolls, dice)
    &&& total == sum_rolls(rolls)
    &&& applied == AttackerEffectApplied::NetrunnerBrainDamage { hp_lost: capped(total as int, 255) as u8 }
    &&& match request.target {
        AttackTarget::Netrunner(id) => hp_taken(old, new, id, capped(total as int, 255)),
        _ => new == old,
    }
}

/// The attacking instance `id` derezzed from `old` to `new`; `found` says
/// whether it was rezzed.
pub open spec fn self_derez(old: World, new: World, id: ProgramInstanceId, found: bool) -> bool {
    match old.netrun {
        None => !found && new == old,
        Some(nr) => {
            &&& new == (World { netrun: new.netrun, ..old })
            &&& new.netrun matches Some(nr2)
            &&& found == has_instance(nr, id)
            &&& found ==> derezzed(nr, new.netrun.unwrap(), id)
            &&& !found ==> new.netrun.unwrap().rezzed_programs@ == nr.rezzed_programs@
                && new.netrun.unwrap() == (NetrunState {
                rezzed_programs: new.netrun.unwrap().rezzed_programs,
                ..nr
            })
        },
    }
}

/// Roll the dice of `dice`, one result each.
pub fn roll_dice(dice: &DiceSpec, rng: &mut ChaCha20Rng) -> (rolls: Vec<u8>)
    ensures
        dice_rolls(rolls@, *dice),
{
    match dice.die {
        DieKind::D6 => ndn_d6(dice.n, rng),
        DieKind::D10 => {
            let mut rolls: Vec<u8> = Vec::new();
            let mut k: u8 = 0;
            while k < dice.n
                invariant
                    k <= dice.n,
                    rolls@.len() == k,
                    dice.die == DieKind::D10,
                    forall|i: int| 0 <= i < k ==> 1 <= #[trigger] rolls@[i] <= 10,
                decreases dice.n - k,
            {
                rolls.push(d10(rng));
                k = k + 1;
            }
            rolls
        },
    }
}

/// The sum of rolled dice.
fn total_of(rolls: &Vec<u8>, dice: DiceSpec) -> (t: u16)
    requires
        dice_rolls(rolls@, dice),
    ensures
        t == sum_rolls(rolls@),
{
    sum_die_rolls(rolls)
}

/// `x` capped at 255.
fn cap_u8(x: u16) -> (r: u8)
    ensures
        r == capped(x as int, 255),
{
    if x < 255 { x as u8 } else { 255 }
}

/// Apply a hit of `effect`: roll its damage and apply it to the target.
pub(crate) fn apply_effect(
    world: &mut World,
    request: &AttackerActivation,
    effect: &ProgramEffect,
    rng: &mut ChaCha20Rng,
) -> (r: (Vec<u8>, u16, AttackerEffectApplied))
    requires
        is_attack_effect(*effect),
        request.target matches AttackTarget::Program(id) ==> (old(world).netrun matches Some(nr)
            && has_instance(nr, id)),
    ensures
        hit_applied(*old(world), *final(world), *request, *effect, r.0@, r.1, r.2),
{
    match effect {
        ProgramEffect::AnyAttackerProgramDamage { dice_vs_non_black_ice, dice_vs_black_ice } => {
            let dice = match request.target {
                AttackTarget::BlackIce(_) => *dice_vs_black_ice,
                _ => *dice_vs_non_black_ice,
            };
            let rolls = roll_dice(&dice, rng);
            let total = total_of(&rolls, dice);
            let applied = match request.target {
                AttackTarget::Program(id) => {
                    let ghost nr = world.netrun.unwrap();
                    match world.netrun.as_mut() {
                        Some(ns) => {
                            let i = match ns.find_instance(id) {
                                Some(i) => i,
                                None => {
                                    proof {
                                        let k = instance_index(nr, id);
                                        assert(first_instance_index(nr.rezzed_programs@, id, k));
                                        assert(nr.rezzed_programs@[k].instance_id == id);
                                    }
                                    0
                                },
                            };
                            proof {
                                let k = instance_index(nr, id);
                                assert(first_instance_index(nr.rezzed_programs@, id, k));
                                assert(first_instance_index(nr.rezzed_programs@, id, i as int));
                                if k < i {
                                    assert(nr.rezzed_programs@[k].instance_id != id);
                                } else if i < k {
                                    assert(nr.rezzed_programs@[i as int].instance_id != id);
                                }
                            }
                            let current = ns.rezzed_programs[i].current_rez;
                            let rez_lost: u8 = if total < current as u16 { total as u8 } else { current };
                            ns.lower_rez_at(i, rez_lost);
                            let derezzed_now = ns.rezzed_programs[i].current_rez == 0;
                            if derezzed_now {
                                let ghost upd = ns.rezzed_programs@;
                                let _removed = ns.derez_program(id);
                                proof {
                                    assert(first_instance_index(upd, id, i as int));
                                    assert forall|k: int| #[trigger]
                                        first_instance_index(upd, id, k) implies k == i by {
                                        if k < i {
                                            assert(upd[k].instance_id != id);
                                        } else if k > i {
                                            assert(upd[i as int].instance_id != id);
                                        }
                                    }
                                }
                            }
                            AttackerEffectApplied::ProgramDamage { rez_lost, derezzed: derezzed_now }
                        },
                        None => AttackerEffectApplied::Missed,
                    }
                },
                AttackTarget::BlackIce(_) => AttackerEffectApplied::BlackIceDamage {
                    rez_lost: cap_u8(total),
                    derezzed: false,
                },
                AttackTarget::Netrunner(id) => {
                    let hp_lost = cap_u8(total);
                    world.damage_entity(id, hp_lost as i16);
                    AttackerEffectApplied::NetrunnerBrainDamage { hp_lost }
                },
            };
            (rolls, total, applied)
        },
        ProgramEffect::BrainDamageWithBurn { dice, .. } => brain_damage(world, request, *dice, rng),
        ProgramEffect::BrainDamageAndNetActionPenalty { dice, .. } => brain_damage(world, request, *dice, rng),
        ProgramEffect::BlockJackOutAndProgress { dice } => {
            let _duration = roll_dice(dice, rng);
            (Vec::new(), 0, AttackerEffectApplied::NetrunnerBrainDamage { hp_lost: 0 })
        },
        _ => (Vec::new(), 0, AttackerEffectApplied::NetrunnerBrainDamage { hp_lost: 0 }),
    }
}

/// A brain-damage hit: roll `dice` and take the damage off the target when
/// it is a Netrunner.
fn brain_damage(world: &mut World, request: &AttackerActivation, dice: DiceSpec, rng: &mut ChaCha20Rng) -> (r: (
    Vec<u8>,
    u16,
    AttackerEffectApplied,
))
    ensures
        brain_damage_hit(*old(world), *final(world), *request, dice, r.0@, r.1, r.2),
{
    let rolls = roll_dice(&dice, rng);
    let total = total_of(&rolls, dice);
    let hp_lost = cap_u8(total);
    match request.target {
        AttackTarget::Netrunner(id) => world.damage_entity(id, hp_lost as i16),
        _ => {},
    }
    (rolls, total, AttackerEffectApplied::NetrunnerBrainDamage { hp_lost })
}

/// The attack check of an attacker with `int_stat` INT and `interface` firing a
/// program with `atk`, against a defence total of `defence`: its DV is the
/// defence clamped into `0..=255`, and it succeeds exactly when the attack
/// beats the defence (ties go to the defender).
pub open spec fn attack_check(int_stat: i16, interface: int, atk: u8, d10: CritD10, defence: int) -> CheckBreakdown {
    let b = CheckBreakdown::spec_new(
        int_stat,
        (interface + atk) as i16,
        0,
        0,
        d10,
        DV(spec_saturate_to_u8(defence as i16)),
    );
    CheckBreakdown { success: b.final_value > defence, ..b }
}

/// The attacker's total is `INT + Interface + ATK + 1d10`, and the attack
/// lands only when that total is strictly above the defence: a tie goes to
/// the defender.
pub proof fn lemma_attack_ties_favour_defender(int_stat: i16, interface: int, atk: u8, d10: CritD10, defence: int)
    requires
        -0x8000 <= interface + atk <= 0x7fff,
        -0x8000 <= int_stat + interface + atk + d10.net <= 0x7fff,
    ensures
        attack_check(int_stat, interface, atk, d10, defence).final_value == int_stat + interface + atk + d10.net,
        attack_check(int_stat, interface, atk, d10, defence).success <==> int_stat + interface + atk + d10.net
            > defence,
        int_stat + interface + atk + d10.net == defence ==> !attack_check(
            int_stat,
            interface,
            atk,
            d10,
            defence,
        ).success,
{
}

/// The attack of `request` with program `p` by the character `c`, against
/// a target whose defence bonus is `bonus`, defended with `def_d10`:
/// `old` to `mid` is the hit (or nothing on a miss), `mid` to `new` the
/// attacking program's derez; `o` reports it.
pub open spec fn attack_resolved(
    old: World,
    mid: World,
    new: World,
    request: AttackerActivation,
    p: Program,
    c: Character,
    bonus: i16,
    o: AttackerOutcome,
    def_d10: CritD10,
) -> bool {
    let defence = bonus + def_d10.net;
    let hit = o.breakdown.final_value > defence;
    &&& def_d10.wf()
    &&& o.breakdown == attack_check(c.spec_current_int(), c.role_rank as int, p.atk, o.breakdown.d10, defence)
    &&& o.breakdown.success == hit
    &&& hit ==> hit_applied(old, mid, request, p.effect, o.damage_rolls@, o.damage_total, o.effect_applied)
    &&& !hit ==> o.damage_rolls@.len() == 0 && o.damage_total == 0 && o.effect_applied
        == AttackerEffectApplied::Missed && mid == old
    &&& self_derez(mid, new, request.program_instance, o.self_derezzed)
}

/// The attack happened as [`attack_resolved`] says, for some defence die
/// and some world between the hit and the attacker's derez.
pub open spec fn attack_happened(
    old: World,
    new: World,
    request: AttackerActivation,
    p: Program,
    c: Character,
    bonus: i16,
    o: AttackerOutcome,
) -> bool {
    &&& o.breakdown.d10.wf()
    &&& exists|def_d10: CritD10, mid: World|
        #[trigger] attack_resolved(old, mid, new, request, p, c, bonus, o, def_d10)
}

/// Fire an Attacker program.
///
/// Errors, in the order they are checked, each leaving the world as it
/// was: the slug is not in the catalog (`ProgramNotFound`); the program is
/// not an Attacker (`WrongProgramClass`); the Netrunner is not in the world
/// (`EntityNotFound`); the target cannot be found (see [`defence_bonus`]).
/// The first three come before any die is rolled; the target is looked up
/// after the attack die.
pub fn activate_attacker(
    world: &mut World,
    catalog: &Catalog<Program>,
    request: AttackerActivation,
    rng: &mut ChaCha20Rng,
) -> (r: Result<AttackerOutcome, RulesError>)
    requires
        catalog.lookup(request.program.0@) matches Some(p) ==> (is_attacker(p.class) ==> is_attack_effect(
            p.effect,
        )),
    ensures
        match catalog.lookup(request.program.0@) {
            None => r == Err::<AttackerOutcome, RulesError>(RulesError::ProgramNotFound(request.program))
                && *final(world) == *old(world) && *final(rng) == *old(rng),
            Some(p) => if !is_attacker(p.class) {
                &&& r matches Err(RulesError::WrongProgramClass { program, expected, got, found })
                &&& program == request.program
                &&& expected@ == "Attacker (AntiPersonnelAttacker or AntiProgramAttacker)"@
                &&& got@ == spec_class_name(p.class)
                &&& found@ == spec_class_name(p.class)
                &&& *final(world) == *old(world)
                &&& *final(rng) == *old(rng)
            } else {
                match old(world).spec_entity(request.netrunner) {
                    None => r == Err::<AttackerOutcome, RulesError>(
                        RulesError::EntityNotFound(request.netrunner),
                    ) && *final(world) == *old(world) && *final(rng) == *old(rng),
                    Some(c) => match defence_bonus(*old(world), *catalog, request.target) {
                        Err(e) => r == Err::<AttackerOutcome, RulesError>(e) && *final(world) == *old(world),
                        Ok(bonus) => r matches Ok(o) && attack_happened(
                            *old(world),
                            *final(world),
                            request,
                            p,
                            c,
                            bonus,
                            o,
                        ),
                    },
                }
            },
        },
{
    let (program_class, program_atk, program_effect) = match catalog.get(&request.program.0) {
        Some(p) => (p.class, p.atk, p.effect),
        None => { return Err(RulesError::ProgramNotFound(request.program)); },
    };
    match program_class {
        ProgramClass::AntiPersonnelAttacker | ProgramClass::AntiProgramAttacker => {},
        _ => {
            return Err(
                RulesError::WrongProgramClass {
                    program: request.program,
                    expected: "Attacker (AntiPersonnelAttacker or AntiProgramAttacker)",
                    got: class_name(program_class),
                    found: class_name(program_class),
                },
            );
        },
    }
    let (att_int, att_interface) = match world.entity(request.netrunner) {
        Some(actor) => (actor.current_int(), actor.role_rank as i16),
        None => { return Err(RulesError::EntityNotFound(request.netrunner)); },
    };
    let att_d10 = d10_with_crits(rng);
    let att_total: i16 = att_int + att_interface + program_atk as i16 + att_d10.net;
    let bonus: i16 = match request.target {
        AttackTarget::Program(id) => {
            match &world.netrun {
                Some(ns) => match ns.find_instance(id) {
                    Some(i) => {
                        let slug = &ns.rezzed_programs[i].program;
                        proof {
                            let k = instance_index(*ns, id);
                            assert(first_instance_index(ns.rezzed_programs@, id, i as int));
                            if k < i {
                                assert(ns.rezzed_programs@[k].instance_id != id);
                            } else if i < k {
                                assert(ns.rezzed_programs@[i as int].instance_id != id);
                            }
                        }
                        match catalog.get(&slug.0) {
                            Some(q) => q.def as i16,
                            None => { return Err(RulesError::ProgramNotFound(slug.duplicate())); },
                        }
                    },
                    None => { return Err(RulesError::NetrunNotActive); },
                },
                None => { return Err(RulesError::NetrunNotActive); },
            }
        },
        AttackTarget::Netrunner(id) => match world.entity(id) {
            Some(t) => t.current_int() + t.role_rank as i16,
            None => { return Err(RulesError::EntityNotFound(id)); },
        },
        AttackTarget::BlackIce(_) => 0,
    };
    let def_d10 = d10_with_crits(rng);
    let defence: i16 = bonus + def_d10.net;
    let breakdown = CheckBreakdown::new(
        att_int,
        att_interface + program_atk as i16,
        0,
        0,
        att_d10,
        DV(saturate_to_u8(defence)),
    );
    let hit = att_total > defence;
    let breakdown = CheckBreakdown { success: hit, ..breakdown };
    proof {
        let c = old(world).spec_entity(request.netrunner).unwrap();
        assert(defence_bonus(*old(world), *catalog, request.target) == Ok::<i16, RulesError>(bonus));
        assert(breakdown == attack_check(c.spec_current_int(), c.role_rank as int, program_atk, att_d10, defence as int));
        assert(breakdown.final_value == att_total);
    }
    let (damage_rolls, damage_total, effect_applied) = if hit {
        apply_effect(world, &request, &program_effect, rng)
    } else {
        (Vec::new(), 0, AttackerEffectApplied::Missed)
    };
    let ghost mid = *world;
    let self_derezzed = match world.netrun.as_mut() {
        Some(ns) => {
            let ghost before = *ns;
            let removed = ns.derez_program(request.program_instance);
            proof {
                if has_instance(before, request.program_instance) {
                    let k = instance_index(before, request.program_instance);
                    assert(first_instance_index(before.rezzed_programs@, request.program_instance, k));
                    assert(before.rezzed_programs@[k].instance_id == request.program_instance);
                }
            }
            removed.is_some()
        },
        None => false,
    };
    let o = AttackerOutcome { breakdown, damage_rolls, damage_total, effect_applied, self_derezzed };
    proof {
        let c = old(world).spec_entity(request.netrunner).unwrap();
        let p = catalog.lookup(request.program.0@).unwrap();
        assert(attack_resolved(*old(world), mid, *world, request, p, c, bonus, o, def_d10));
    }
    Ok(o)
}

/// After an attack, hit or miss, the attacking program is no longer
/// rezzed: it was found and removed, and no program with its instance id
/// is left. This holds when the rezzed programs carry distinct minted ids,
/// as [`NetrunState::rez_program`] keeps them, and the program did not
/// target itself.
pub proof fn lemma_attacker_derezzes_after_attack(
    old: World,
    new: World,
    request: AttackerActivation,
    p: Program,
    c: Character,
    bonus: i16,
    o: AttackerOutcome,
)
    requires
        old.netrun matches Some(nr) && nr.ids_fresh() && has_instance(nr, request.program_instance),
        request.target != AttackTarget::Program(request.program_instance),
        attack_happened(old, new, request, p, c, bonus, o),
    ensures
        o.self_derezzed,
        new.netrun matches Some(nr2) && forall|j: int|
            0 <= j < nr2.rezzed_programs@.len() ==> (#[trigger] nr2.rezzed_programs@[j]).instance_id
                != request.program_instance,
{
    let nr = old.netrun.unwrap();
    let id = request.program_instance;
    let s = nr.rezzed_programs@;
    let (d, mid) = choose|d: CritD10, mid: World| #[trigger]
        attack_resolved(old, mid, new, request, p, c, bonus, o, d);
    let ja = instance_index(nr, id);
    assert(first_instance_index(s, id, ja));
    let hit = o.breakdown.final_value > bonus + d.net;
    if hit && p.effect is AnyAttackerProgramDamage && request.target is Program {
        let t = request.target->Program_0;
        let i = instance_index(nr, t);
        assert(first_instance_index(s, t, i));
        assert(ja != i);
        let tp = s[i];
        let lost = capped(o.damage_total as int, tp.current_rez as int);
        let left = tp.current_rez - lost;
        let upd = s.update(i, RezzedProgram { current_rez: left as u8, ..tp });
        assert(distinct_ids(upd)) by {
            assert forall|a: int, b: int| 0 <= a < b < upd.len() implies (#[trigger] upd[a]).instance_id
                != (#[trigger] upd[b]).instance_id by {
                assert(upd[a].instance_id == s[a].instance_id);
                assert(upd[b].instance_id == s[b].instance_id);
            }
        }
        assert(minted_ids(upd, nr.counter())) by {
            assert forall|a: int| 0 <= a < upd.len() implies exists|k: u64|
                1 <= k <= nr.counter() && (#[trigger] upd[a]).instance_id.0 == spec_instance_bits(k) by {
                assert(upd[a].instance_id == s[a].instance_id);
            }
        }
        let nm = mid.netrun.unwrap();
        if left == 0 {
            lemma_swap_remove_keeps_ids(upd, i, nr.counter());
            assert(upd[ja] == s[ja]);
            let k = choose|k: int|
                #![trigger upd.update(i, upd.last()).drop_last()[k]]
                0 <= k < upd.len() - 1 && upd.update(i, upd.last()).drop_last()[k] == upd[ja];
            lemma_distinct_first_index(nm.rezzed_programs@, k);
        } else {
            lemma_distinct_first_index(upd, ja);
        }
        assert(nm.ids_fresh());
        assert(has_instance(nm, id));
        lemma_derez_removes_instance(nm, new.netrun.unwrap(), id);
    } else {
        assert(mid.netrun == old.netrun);
        lemma_derez_removes_instance(nr, new.netrun.unwrap(), id);
    }
}

} // verus!

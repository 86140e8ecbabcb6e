//! Interface Ability: Zap — the built-in attack on a program or a Netrunner.
//!
//! A NET Action: when a netrun is active, one is spent on a hit or a miss
//! (the budget is not checked; the count stops at 255). The attacker rolls
//! `Interface + 1d10` (no STAT) against the defender's total, which serves as the DV: a rezzed program defends
//! with `0 + 1d10` (program DEF is not tracked on rezzed programs, so it
//! counts 0), a Netrunner with `Interface + 1d10` (plain d10s; the
//! defender rolls first). A defender total is clamped into `0..=255`.
//! On a hit (margin >= 0) the attacker rolls 1d6 damage: a program loses
//! that much REZ (not below 0) and is removed once at 0; a Netrunner takes
//! it as brain damage.

use vstd::prelude::*;
use crate::dice::{d10, d10_with_crits, d6};
use crate::error::RulesError;
use crate::netrunning::abilities::{luck_refusal, luck_spent};
use crate::netrunning::abilities::eye_dee::inc_saturating;
use crate::netrunning::state::{
    first_instance_index, without_instance, NetrunState, ProgramInstanceId, RezzedProgram,
};
use crate::resolution::{CheckBreakdown, Resolution};
use crate::types::{EntityId, DV};
use crate::world::{character_replaced, lemma_replace_keeps_lookup, World};
use rand_chacha::ChaCha20Rng;

verus! {

/// A Zap NET Action.
#[derive(Clone, Copy, Debug, PartialEq, Eq, Structural)]
pub struct ZapAction {
    /// The attacker; must be a character of the world.
    pub netrunner: EntityId,
    /// What the Zap is aimed at.
    pub target: ZapTarget,
    /// LUCK to spend before the roll.
    pub luck_to_spend: u8,
}

/// The target of a Zap.
#[derive(Clone, Copy, Debug, PartialEq, Eq, Structural)]
pub enum ZapTarget {
    /// A rezzed program of the netrun.
    Program(ProgramInstanceId),
    /// A Netrunner.
    Netrunner(EntityId),
}

/// Outcome of a Zap.
#[derive(Clone, Copy, Debug, PartialEq, Eq, Structural)]
pub struct ZapOutcome {
    /// The attacker's check; its DV is the defender's total.
    pub breakdown: CheckBreakdown,
    /// The 1d6 damage roll; 0 on a miss.
    pub damage: u8,
    /// What happened.
    pub effect_applied: ZapEffect,
}

/// What a Zap did.
#[derive(Clone, Copy, Debug, PartialEq, Eq, Structural)]
pub enum ZapEffect {
    /// A program lost `by` REZ; `derezzed` when it reached 0 and was removed.
    ProgramRezReduced { instance: ProgramInstanceId, by: u8, derezzed: bool },
    /// A Netrunner took `hp_lost` brain damage.
    BrainDamage { hp_lost: u8 },
    /// The attack missed.
    Missed,
}

/// The netrun with one more NET Action spent this Turn (the count stops at
/// 255), if there is one.
pub open spec fn with_action_spent(netrun: Option<NetrunState>) -> Option<NetrunState> {
    match netrun {
        Some(nr) => Some(NetrunState { net_actions_used_this_turn: inc_saturating(nr.net_actions_used_this_turn), ..nr }),
        None => None,
    }
}

/// A defender total clamped into `0..=255`.
pub open spec fn clamp_dv(total: int) -> u8 {
    if total < 0 { 0 } else if total > 255 { 255 } else { total as u8 }
}

impl ZapAction {
    /// Why the Zap is refused in `w`, if it is, and whether the refusal
    /// comes after the LUCK is spent.
    pub open spec fn refusal(&self, w: World) -> Option<(RulesError, bool)> {
        match w.spec_entity(self.netrunner) {
            None => Some((RulesError::EntityNotFound(self.netrunner), false)),
            Some(c) => if self.luck_to_spend > c.luck_pool {
                Some(
                    (
                        RulesError::InsufficientLuck {
                            requested: self.luck_to_spend,
                            available: c.luck_pool,
                        },
                        false,
                    ),
                )
            } else {
                match self.target {
                    ZapTarget::Program(iid) => match w.netrun {
                        None => Some((RulesError::EntityNotFound(self.netrunner), true)),
                        Some(nr) => if exists|i: int| first_instance_index(nr.rezzed_programs@, iid, i) {
                            None
                        } else {
                            Some((RulesError::EntityNotFound(self.netrunner), true))
                        },
                    },
                    ZapTarget::Netrunner(tid) => if w.spec_entity(tid) is None {
                        Some((RulesError::EntityNotFound(tid), true))
                    } else {
                        None
                    },
                }
            },
        }
    }

    /// The defender's bonus in `w` (before the d10).
    pub open spec fn defence_base(&self, w: World) -> int {
        match self.target {
            ZapTarget::Program(_) => 0,
            ZapTarget::Netrunner(tid) => w.spec_entity(tid).unwrap().role_rank as int,
        }
    }
}

/// A rezzed program defends a Zap with a bare 1d10 (its DEF is not tracked
/// once rezzed), a Netrunner with Interface + 1d10; a defence total in
/// `0..=255` is the DV as it stands.
pub proof fn lemma_zap_defence(a: ZapAction, w: World, total: int)
    ensures
        a.target is Program ==> a.defence_base(w) == 0,
        a.target matches ZapTarget::Netrunner(tid) ==> a.defence_base(w) == w.spec_entity(tid).unwrap().role_rank,
        0 <= total <= 255 ==> clamp_dv(total) == total,
{
}

impl Resolution for ZapAction {
    type Outcome = Result<ZapOutcome, RulesError>;

    /// Resolve the Zap.
    fn resolve(&self, world: &mut World, rng: &mut ChaCha20Rng) -> (r: Self::Outcome)
        ensures
            self.refusal(*old(world)) is Some ==> *final(rng) == *old(rng),
            self.refusal(*old(world)) matches Some((e, spent)) ==> r == Err::<ZapOutcome, RulesError>(e)
                && (if spent {
                luck_spent(*old(world), *final(world), self.netrunner, self.luck_to_spend)
                    && final(world).netrun == old(world).netrun
            } else {
                *final(world) == *old(world)
            }),
            self.refusal(*old(world)) is None ==> (r matches Ok(o) && {
                let rank = old(world).spec_entity(self.netrunner).unwrap().role_rank;
                exists|mid: World, roll: u8|
                    #![trigger luck_spent(*old(world), mid, self.netrunner, self.luck_to_spend), clamp_dv(self.defence_base(*old(world)) + roll)]
                    {
                    &&& luck_spent(*old(world), mid, self.netrunner, self.luck_to_spend)
                    &&& mid.netrun == old(world).netrun
                    &&& 1 <= roll <= 10
                    &&& o.breakdown.d10.wf()
                    &&& o.breakdown == CheckBreakdown::spec_new(
                        0,
                        rank as i16,
                        0,
                        self.luck_to_spend,
                        o.breakdown.d10,
                        DV(clamp_dv(self.defence_base(*old(world)) + roll)),
                    )
                    &&& !o.breakdown.success ==> o.damage == 0 && o.effect_applied == ZapEffect::Missed
                        && *final(world) == (World { netrun: with_action_spent(mid.netrun), ..mid })
                    &&& o.breakdown.success ==> 1 <= o.damage <= 6 && match self.target {
                        ZapTarget::Program(iid) => {
                            let nr = old(world).netrun.unwrap();
                            let i = choose|i: int| first_instance_index(nr.rezzed_programs@, iid, i);
                            let p = nr.rezzed_programs@[i];
                            let derezzed = p.current_rez <= o.damage;
                            &&& o.effect_applied == (ZapEffect::ProgramRezReduced {
                                instance: iid,
                                by: if derezzed { p.current_rez } else { o.damage },
                                derezzed,
                            })
                            &&& same_characters_and_combat(mid, *final(world))
                            &&& final(world).netrun matches Some(nr2) && nr2 == (NetrunState {
                                rezzed_programs: nr2.rezzed_programs,
                                net_actions_used_this_turn: inc_saturating(nr.net_actions_used_this_turn),
                                ..nr
                            }) && nr2.rezzed_programs@ == (if derezzed {
                                without_instance(nr.rezzed_programs@, iid)
                            } else {
                                nr.rezzed_programs@.update(
                                    i,
                                    RezzedProgram { current_rez: (p.current_rez - o.damage) as u8, ..p },
                                )
                            })
                        },
                        ZapTarget::Netrunner(tid) => {
                            &&& o.effect_applied == (ZapEffect::BrainDamage { hp_lost: o.damage })
                            &&& character_replaced(
                                mid,
                                *final(world),
                                tid,
                                mid.spec_entity(tid).unwrap().after_damage(o.damage as i16),
                            )
                            &&& final(world).netrun == with_action_spent(mid.netrun)
                            &&& final(world).combat == mid.combat
                        },
                    }
                }
            }),
    {
        let interface_rank: i16 = match world.entity(self.netrunner) {
            Some(c) => c.role_rank as i16,
            None => { return Err(RulesError::EntityNotFound(self.netrunner)); },
        };
        match world.spend_luck_and_read(self.netrunner, self.luck_to_spend) {
            Ok(_) => {},
            Err(e) => { return Err(e); },
        }
        let ghost mid = *world;
        proof {
            let c = old(world).spec_entity(self.netrunner).unwrap();
            match self.target {
                ZapTarget::Netrunner(tid) => {
                    lemma_replace_keeps_lookup(*old(world), mid, self.netrunner, c.after_luck(self.luck_to_spend), tid);
                },
                _ => {},
            }
        }
        let defence_base: i16 = match self.target {
            ZapTarget::Program(instance_id) => {
                match &world.netrun {
                    None => { return Err(RulesError::EntityNotFound(self.netrunner)); },
                    Some(nr) => {
                        match nr.find_instance(instance_id) {
                            None => { return Err(RulesError::EntityNotFound(self.netrunner)); },
                            Some(_) => {},
                        }
                    },
                }
                0
            },
            ZapTarget::Netrunner(target_id) => {
                match world.entity(target_id) {
                    Some(t) => t.role_rank as i16,
                    None => { return Err(RulesError::EntityNotFound(target_id)); },
                }
            },
        };
        let roll = d10(rng);
        let defender_total: i16 = defence_base + roll as i16;
        let attacker_d10 = d10_with_crits(rng);
        let dv_value: u8 = if defender_total < 0 {
            0
        } else if defender_total > 255 {
            255
        } else {
            defender_total as u8
        };
        proof {
            assert(defence_base == self.defence_base(*old(world)));
            assert(luck_spent(*old(world), mid, self.netrunner, self.luck_to_spend));
            assert(clamp_dv(self.defence_base(*old(world)) + roll) == dv_value);
        }
        let breakdown = CheckBreakdown::new(0, interface_rank, 0, self.luck_to_spend, attacker_d10, DV(dv_value));
        if !breakdown.success {
            spend_net_action(world);
            return Ok(ZapOutcome { breakdown, damage: 0, effect_applied: ZapEffect::Missed });
        }
        let damage = d6(rng);
        let effect_applied = match self.target {
            ZapTarget::Program(instance_id) => {
                match world.netrun.as_mut() {
                    None => { return Err(RulesError::EntityNotFound(self.netrunner)); },
                    Some(nr) => {
                        match nr.find_instance(instance_id) {
                            None => { return Err(RulesError::EntityNotFound(self.netrunner)); },
                            Some(i) => {
                                let rez = nr.rezzed_programs[i].current_rez;
                                if damage >= rez {
                                    nr.remove_instance(instance_id);
                                    ZapEffect::ProgramRezReduced { instance: instance_id, by: rez, derezzed: true }
                                } else {
                                    nr.lower_rez_at(i, damage);
                                    ZapEffect::ProgramRezReduced { instance: instance_id, by: damage, derezzed: false }
                                }
                            },
                        }
                    },
                }
            },
            ZapTarget::Netrunner(target_id) => {
                world.damage_entity(target_id, damage as i16);
                ZapEffect::BrainDamage { hp_lost: damage }
            },
        };
        spend_net_action(world);
        Ok(ZapOutcome { breakdown, damage, effect_applied })
    }
}

/// Spend one NET Action of the netrun, if there is one.
fn spend_net_action(world: &mut World)
    ensures
        *final(world) == (World { netrun: with_action_spent(old(world).netrun), ..*old(world) }),
{
    match world.netrun.as_mut() {
        Some(nr) => {
            if nr.net_actions_used_this_turn < 255 {
                nr.net_actions_used_this_turn = nr.net_actions_used_this_turn + 1;
            }
        },
        None => {},
    }
}

/// `old` and `new` hold the same characters and the same combat.
pub open spec fn same_characters_and_combat(old: World, new: World) -> bool {
    new.pc == old.pc && new.npcs@ == old.npcs@ && new.combat == old.combat
}

} // verus!

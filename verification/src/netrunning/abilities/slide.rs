//! Interface Ability: Slide — flee from one non-Demon Black ICE.
//!
//! A NET Action, once per Turn: the Netrunner's `INT + Interface + 1d10`
//! against the ICE's `PER + 1d10` (Netrunner rolls first). The Netrunner
//! must strictly beat the ICE; then the ICE's floor is marked Slid.
//! The target floor must be a Black ICE floor of the netrun; a Demon floor
//! is refused with its own error.

use vstd::prelude::*;
use crate::dice::d10_with_crits;
use crate::error::RulesError;
use crate::netrunning::abilities::{interface_check, luck_refusal, luck_spent};
use crate::netrunning::abilities::eye_dee::inc_saturating;
use crate::netrunning::architecture::{BlackIceState, Floor};
use crate::netrunning::state::NetrunState;
use crate::resolution::{CheckBreakdown, Resolution};
use crate::types::{EntityId, DV};
use crate::world::World;
use rand_chacha::ChaCha20Rng;

verus! {

/// A Slide NET Action away from the Black ICE on `target_ice_floor`.
#[derive(Clone, Copy, Debug, PartialEq, Eq, Structural)]
pub struct SlideAction {
    /// The Netrunner; must be a character of the world.
    pub netrunner: EntityId,
    /// Index into the netrun's floors of the Black ICE to flee.
    pub target_ice_floor: usize,
    /// LUCK to spend before the roll.
    pub luck_to_spend: u8,
}

/// Outcome of a Slide.
#[derive(Clone, Copy, Debug, PartialEq, Eq, Structural)]
pub struct SlideOutcome {
    /// The Netrunner's check, built against DV 0.
    pub breakdown: CheckBreakdown,
    /// The ICE's `PER + 1d10`, built against DV 0.
    pub ice_breakdown: CheckBreakdown,
    /// Whether the Netrunner's total strictly beat the ICE's.
    pub slid: bool,
}

/// Why the target floor cannot be Slid from, if it cannot.
pub open spec fn target_refusal(floors: Seq<Floor>, idx: usize) -> Option<RulesError> {
    if idx >= floors.len() {
        Some(RulesError::SlideTargetNotBlackIce { floor_idx: idx })
    } else {
        match floors[idx as int] {
            Floor::Demon { .. } => Some(RulesError::CannotSlideDemon),
            Floor::BlackIce { .. } => None,
            _ => Some(RulesError::SlideTargetNotBlackIce { floor_idx: idx }),
        }
    }
}

impl SlideAction {
    /// Why the Slide is refused before any LUCK is spent, if it is.
    pub open spec fn early_refusal(&self, w: World) -> Option<RulesError> {
        match w.netrun {
            None => Some(RulesError::NetrunNotActive),
            Some(nr) => if nr.slide_used_this_turn {
                Some(RulesError::SlideAlreadyUsedThisTurn)
            } else {
                luck_refusal(w, self.netrunner, self.luck_to_spend)
            },
        }
    }
}

/// A Slide may be tried once per Turn: once the netrun records a Slide this
/// Turn, another is refused before anything is spent.
pub proof fn lemma_slide_once_per_turn(a: SlideAction, w: World)
    ensures
        w.netrun is None ==> a.early_refusal(w) == Some(RulesError::NetrunNotActive),
        w.netrun is Some && w.netrun.unwrap().slide_used_this_turn ==> a.early_refusal(w) == Some(
            RulesError::SlideAlreadyUsedThisTurn,
        ),
{
}

/// Only a Black ICE floor can be slid away from: a Demon is refused with its
/// own error, any other floor (or one past the end) as not Black ICE.
pub proof fn lemma_slide_targets(floors: Seq<Floor>, idx: usize)
    ensures
        idx < floors.len() && floors[idx as int] is BlackIce ==> target_refusal(floors, idx) is None,
        idx < floors.len() && floors[idx as int] is Demon ==> target_refusal(floors, idx) == Some(
            RulesError::CannotSlideDemon,
        ),
        idx >= floors.len() || !(floors[idx as int] is BlackIce || floors[idx as int] is Demon) ==> target_refusal(
            floors,
            idx,
        ) == Some(RulesError::SlideTargetNotBlackIce { floor_idx: idx }),
{
}

impl Resolution for SlideAction {
    type Outcome = Result<SlideOutcome, RulesError>;

    /// Resolve the Slide. The LUCK is spent before the target floor is
    /// checked, so a refused target comes after the LUCK is gone.
    fn resolve(&self, world: &mut World, rng: &mut ChaCha20Rng) -> (r: Self::Outcome)
        ensures
            self.early_refusal(*old(world)) matches Some(e) ==> r == Err::<SlideOutcome, RulesError>(e)
                && *final(world) == *old(world) && *final(rng) == *old(rng),
            self.early_refusal(*old(world)) is None ==> {
                let nr = old(world).netrun.unwrap();
                &&& luck_spent(*old(world), *final(world), self.netrunner, self.luck_to_spend)
                &&& target_refusal(nr.floors@, self.target_ice_floor) matches Some(e) ==> r == Err::<
                    SlideOutcome,
                    RulesError,
                >(e) && final(world).netrun == old(world).netrun && *final(rng) == *old(rng)
                &&& target_refusal(nr.floors@, self.target_ice_floor) is None ==> (r matches Ok(o) && {
                    let f = nr.floors@[self.target_ice_floor as int];
                    &&& o.breakdown.d10.wf()
                    &&& o.ice_breakdown.d10.wf()
                    &&& o.breakdown == interface_check(
                        *old(world),
                        self.netrunner,
                        self.luck_to_spend,
                        o.breakdown.d10,
                        DV(0),
                    )
                    &&& o.ice_breakdown == CheckBreakdown::spec_new(
                        f->BlackIce_ice_per as i16,
                        0,
                        0,
                        0,
                        o.ice_breakdown.d10,
                        DV(0),
                    )
                    &&& o.slid == (o.breakdown.final_value > o.ice_breakdown.final_value)
                    &&& final(world).netrun matches Some(nr2) && nr2 == (NetrunState {
                        slide_used_this_turn: true,
                        net_actions_used_this_turn: inc_saturating(nr.net_actions_used_this_turn),
                        floors: nr2.floors,
                        ..nr
                    }) && nr2.floors@ == (if o.slid {
                        nr.floors@.update(
                            self.target_ice_floor as int,
                            Floor::BlackIce {
                                template: f->BlackIce_template,
                                state: BlackIceState::Slid,
                                ice_per: f->BlackIce_ice_per,
                            },
                        )
                    } else {
                        nr.floors@
                    })
                })
            },
    {
        match &world.netrun {
            None => { return Err(RulesError::NetrunNotActive); },
            Some(nr) => {
                if nr.slide_used_this_turn {
                    return Err(RulesError::SlideAlreadyUsedThisTurn);
                }
            },
        }
        let (int_value, interface_rank) = match world.spend_luck_and_read(self.netrunner, self.luck_to_spend) {
            Ok(v) => v,
            Err(e) => { return Err(e); },
        };
        match world.netrun.as_mut() {
            None => Err(RulesError::NetrunNotActive),
            Some(nr) => {
                if self.target_ice_floor >= nr.floors.len() {
                    return Err(RulesError::SlideTargetNotBlackIce { floor_idx: self.target_ice_floor });
                }
                let (template, ice_per) = match &nr.floors[self.target_ice_floor] {
                    Floor::Demon { .. } => { return Err(RulesError::CannotSlideDemon); },
                    Floor::BlackIce { template, ice_per, .. } => (template.duplicate(), *ice_per),
                    _ => {
                        return Err(RulesError::SlideTargetNotBlackIce { floor_idx: self.target_ice_floor });
                    },
                };
                let runner_d10 = d10_with_crits(rng);
                let ice_d10 = d10_with_crits(rng);
                let breakdown = CheckBreakdown::new(
                    int_value,
                    interface_rank,
                    0,
                    self.luck_to_spend,
                    runner_d10,
                    DV(0),
                );
                let ice_breakdown = CheckBreakdown::new(ice_per as i16, 0, 0, 0, ice_d10, DV(0));
                let slid = breakdown.final_value > ice_breakdown.final_value;
                if slid {
                    nr.floors.set(
                        self.target_ice_floor,
                        Floor::BlackIce { template, state: BlackIceState::Slid, ice_per },
                    );
                }
                nr.slide_used_this_turn = true;
                if nr.net_actions_used_this_turn < 255 {
                    nr.net_actions_used_this_turn = nr.net_actions_used_this_turn + 1;
                }
                Ok(SlideOutcome { breakdown, ice_breakdown, slid })
            },
        }
    }
}

} // verus!

//! Interface Ability: Control — seize the Control Node of the current floor.
//!
//! A NET Action: `INT + Interface + 1d10` against the DV the caller gives
//! (the node's DV, or the Control check of whoever holds it). The action is
//! spent before the roll. On a success the floor joins the held nodes,
//! unless it is held already (then nothing new is captured).

use vstd::prelude::*;
use crate::dice::d10_with_crits;
use crate::error::RulesError;
use crate::netrunning::abilities::{interface_check, luck_refusal, luck_spent};
use crate::netrunning::state::NetrunState;
use crate::resolution::{CheckBreakdown, Resolution};
use crate::types::{EntityId, DV};
use crate::world::World;
use rand_chacha::ChaCha20Rng;

verus! {

/// A Control NET Action against the Control Node on `floor_idx`.
#[derive(Clone, Copy, Debug, PartialEq, Eq, Structural)]
pub struct ControlAction {
    /// The Netrunner; must be a character of the world.
    pub netrunner: EntityId,
    /// LUCK to spend before the roll.
    pub luck_to_spend: u8,
    /// The DV to beat.
    pub dv: DV,
    /// The floor of the node; must be the current floor.
    pub floor_idx: usize,
}

/// Outcome of a Control.
#[derive(Clone, Copy, Debug, PartialEq, Eq, Structural)]
pub struct ControlOutcome {
    /// The check against the given DV.
    pub breakdown: CheckBreakdown,
    /// The floor captured now, if any.
    pub captured_floor: Option<usize>,
}

impl ControlAction {
    /// Why the Control is refused in `w`, if it is.
    pub open spec fn refusal(&self, w: World) -> Option<RulesError> {
        match w.netrun {
            None => Some(RulesError::NetrunNotActive),
            Some(nr) => if nr.net_actions_used_this_turn >= nr.net_actions_max_this_turn {
                Some(RulesError::NoNetActionsRemaining)
            } else if self.floor_idx != nr.current_floor {
                Some(RulesError::NotAControlNode { floor_idx: self.floor_idx })
            } else {
                luck_refusal(w, self.netrunner, self.luck_to_spend)
            },
        }
    }
}

/// A Control needs a netrun, a NET Action left this Turn, and the Control
/// Node on the current floor; lacking one, it is refused (and changes nothing).
pub proof fn lemma_control_refusals(a: ControlAction, w: World)
    ensures
        w.netrun is None ==> a.refusal(w) == Some(RulesError::NetrunNotActive),
        w.netrun is Some && w.netrun.unwrap().net_actions_used_this_turn >= w.netrun.unwrap().net_actions_max_this_turn
            ==> a.refusal(w) == Some(RulesError::NoNetActionsRemaining),
        w.netrun is Some && w.netrun.unwrap().net_actions_used_this_turn < w.netrun.unwrap().net_actions_max_this_turn
            && a.floor_idx != w.netrun.unwrap().current_floor ==> a.refusal(w) == Some(
            RulesError::NotAControlNode { floor_idx: a.floor_idx },
        ),
{
}

impl Resolution for ControlAction {
    type Outcome = Result<ControlOutcome, RulesError>;

    /// Resolve the Control.
    fn resolve(&self, world: &mut World, rng: &mut ChaCha20Rng) -> (r: Self::Outcome)
        ensures
            self.refusal(*old(world)) matches Some(e) ==> r == Err::<ControlOutcome, RulesError>(e)
                && *final(world) == *old(world) && *final(rng) == *old(rng),
            self.refusal(*old(world)) is None ==> (r matches Ok(o) && {
                let nr = old(world).netrun.unwrap();
                let captured = o.breakdown.success && !nr.controlled_nodes@.contains(self.floor_idx);
                &&& o.breakdown.d10.wf()
                &&& o.breakdown == interface_check(
                    *old(world),
                    self.netrunner,
                    self.luck_to_spend,
                    o.breakdown.d10,
                    self.dv,
                )
                &&& o.captured_floor == (if captured { Some(self.floor_idx) } else { None::<usize> })
                &&& luck_spent(*old(world), *final(world), self.netrunner, self.luck_to_spend)
                &&& final(world).netrun matches Some(nr2) && nr2 == (NetrunState {
                    net_actions_used_this_turn: (nr.net_actions_used_this_turn + 1) as u8,
                    controlled_nodes: nr2.controlled_nodes,
                    ..nr
                }) && nr2.controlled_nodes@ == (if captured {
                    nr.controlled_nodes@.push(self.floor_idx)
                } else {
                    nr.controlled_nodes@
                })
            }),
    {
        match &world.netrun {
            None => { return Err(RulesError::NetrunNotActive); },
            Some(nr) => {
                if nr.net_actions_used_this_turn >= nr.net_actions_max_this_turn {
                    return Err(RulesError::NoNetActionsRemaining);
                }
                if self.floor_idx != nr.current_floor {
                    return Err(RulesError::NotAControlNode { floor_idx: self.floor_idx });
                }
            },
        }
        let (int_value, interface_rank) = match world.spend_luck_and_read(self.netrunner, self.luck_to_spend) {
            Ok(v) => v,
            Err(e) => { return Err(e); },
        };
        match world.netrun.as_mut() {
            None => { return Err(RulesError::NetrunNotActive); },
            Some(nr) => {
                nr.net_actions_used_this_turn = nr.net_actions_used_this_turn + 1;
                let d10 = d10_with_crits(rng);
                let breakdown = CheckBreakdown::new(
                    int_value,
                    interface_rank,
                    0,
                    self.luck_to_spend,
                    d10,
                    self.dv,
                );
                let mut captured_floor: Option<usize> = None;
                if breakdown.success {
                    let mut held = false;
                    let mut i: usize = 0;
                    while i < nr.controlled_nodes.len()
                        invariant
                            i <= nr.controlled_nodes@.len(),
                            held == exists|j: int| 0 <= j < i && nr.controlled_nodes@[j] == self.floor_idx,
                        decreases nr.controlled_nodes@.len() - i,
                    {
                        if nr.controlled_nodes[i] == self.floor_idx {
                            held = true;
                        }
                        i = i + 1;
                    }
                    if !held {
                        nr.take_control_node(self.floor_idx);
                        captured_floor = Some(self.floor_idx);
                    }
                }
                Ok(ControlOutcome { breakdown, captured_floor })
            },
        }
    }
}

} // verus!

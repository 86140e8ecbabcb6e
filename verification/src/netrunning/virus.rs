//! Interface Ability: Virus — leave a Virus at the bottom floor so that its
//! effect outlasts the jack-out.
//!
//! The Netrunner must stand on the deepest revealed floor. The Virus costs
//! its `net_actions_to_install` NET Actions whether or not it installs;
//! the check is `INT + Interface + 1d10` against its `dv_to_install`, and a
//! success queues it on the netrun.

use vstd::prelude::*;
use crate::dice::d10_with_crits;
use crate::error::RulesError;
use crate::netrunning::abilities::{interface_check, luck_refusal, luck_spent};
use crate::netrunning::state::{NetrunState, Virus};
use crate::resolution::{CheckBreakdown, Resolution};
use crate::types::EntityId;
use crate::world::World;
use rand_chacha::ChaCha20Rng;

verus! {

/// A Virus deployment NET Action.
#[derive(Clone, Debug, PartialEq, Eq)]
pub struct DeployVirusAction {
    /// The Netrunner; must be a character of the world.
    pub netrunner: EntityId,
    /// The Virus to install.
    pub virus: Virus,
    /// LUCK to spend before the roll.
    pub luck_to_spend: u8,
}

/// Outcome of a Virus deployment.
#[derive(Clone, Copy, Debug, PartialEq, Eq, Structural)]
pub struct VirusDeploymentOutcome {
    /// The check against the Virus's DV.
    pub breakdown: CheckBreakdown,
    /// Whether the Virus was queued; equals `breakdown.success`.
    pub installed: bool,
    /// NET Actions spent: always the Virus's cost.
    pub net_actions_consumed: u8,
}

/// The deepest revealed floor.
pub open spec fn bottom_floor(nr: NetrunState) -> usize {
    if nr.revealed_floors == 0 { 0 } else { (nr.revealed_floors - 1) as usize }
}

impl DeployVirusAction {
    /// Why the deployment is refused in `w`, if it is.
    pub open spec fn refusal(&self, w: World) -> Option<RulesError> {
        match w.netrun {
            None => Some(RulesError::NetrunNotActive),
            Some(nr) => if nr.current_floor != bottom_floor(nr) {
                Some(
                    RulesError::NotOnBottomFloor {
                        current_floor: nr.current_floor,
                        bottom_floor: bottom_floor(nr),
                    },
                )
            } else if self.virus.net_actions_to_install > nr.actions_left() {
                Some(RulesError::NoNetActionsRemaining)
            } else {
                luck_refusal(w, self.netrunner, self.luck_to_spend)
            },
        }
    }
}

/// A Virus is deployed only from the bottom floor revealed so far, and only
/// with as many NET Actions left this Turn as it takes to install;
/// otherwise it is refused (and changes nothing).
pub proof fn lemma_virus_refusals(a: DeployVirusAction, w: World)
    ensures
        w.netrun is None ==> a.refusal(w) == Some(RulesError::NetrunNotActive),
        w.netrun is Some && w.netrun.unwrap().current_floor != bottom_floor(w.netrun.unwrap()) ==> a.refusal(w)
            matches Some(RulesError::NotOnBottomFloor { .. }),
        w.netrun is Some && w.netrun.unwrap().current_floor == bottom_floor(w.netrun.unwrap())
            && a.virus.net_actions_to_install > w.netrun.unwrap().actions_left() ==> a.refusal(w) == Some(
            RulesError::NoNetActionsRemaining,
        ),
{
}

impl Resolution for DeployVirusAction {
    type Outcome = Result<VirusDeploymentOutcome, RulesError>;

    /// Resolve the deployment.
    fn resolve(&self, world: &mut World, rng: &mut ChaCha20Rng) -> (r: Self::Outcome)
        ensures
            self.refusal(*old(world)) matches Some(e) ==> r == Err::<VirusDeploymentOutcome, RulesError>(e)
                && *final(world) == *old(world) && *final(rng) == *old(rng),
            self.refusal(*old(world)) is None ==> (r matches Ok(o) && {
                let nr = old(world).netrun.unwrap();
                &&& o.breakdown.d10.wf()
                &&& o.breakdown == interface_check(
                    *old(world),
                    self.netrunner,
                    self.luck_to_spend,
                    o.breakdown.d10,
                    self.virus.dv_to_install,
                )
                &&& o.installed == o.breakdown.success
                &&& o.net_actions_consumed == self.virus.net_actions_to_install
                &&& luck_spent(*old(world), *final(world), self.netrunner, self.luck_to_spend)
                &&& final(world).netrun matches Some(nr2) && nr2 == (NetrunState {
                    net_actions_used_this_turn: (nr.net_actions_used_this_turn
                        + self.virus.net_actions_to_install) as u8,
                    queued_viruses: nr2.queued_viruses,
                    ..nr
                }) && nr2.queued_viruses@ == (if o.installed {
                    nr.queued_viruses@.push(self.virus)
                } else {
                    nr.queued_viruses@
                })
            }),
    {
        match &world.netrun {
            None => { return Err(RulesError::NetrunNotActive); },
            Some(nr) => {
                let bottom = if nr.revealed_floors == 0 { 0 } else { nr.revealed_floors - 1 };
                if nr.current_floor != bottom {
                    return Err(RulesError::NotOnBottomFloor { current_floor: nr.current_floor, bottom_floor: bottom });
                }
                let available = if nr.net_actions_used_this_turn <= nr.net_actions_max_this_turn {
                    nr.net_actions_max_this_turn - nr.net_actions_used_this_turn
                } else {
                    0
                };
                if self.virus.net_actions_to_install > available {
                    return Err(RulesError::NoNetActionsRemaining);
                }
            },
        }
        let (int_value, interface_rank) = match world.spend_luck_and_read(self.netrunner, self.luck_to_spend) {
            Ok(v) => v,
            Err(e) => { return Err(e); },
        };
        let d10 = d10_with_crits(rng);
        let breakdown = CheckBreakdown::new(
            int_value,
            interface_rank,
            0,
            self.luck_to_spend,
            d10,
            self.virus.dv_to_install,
        );
        let installed = breakdown.success;
        let net_actions_consumed = self.virus.net_actions_to_install;
        match world.netrun.as_mut() {
            None => { return Err(RulesError::NetrunNotActive); },
            Some(nr) => {
                nr.net_actions_used_this_turn = nr.net_actions_used_this_turn + net_actions_consumed;
                if installed {
                    nr.queue_virus(self.virus.duplicate());
                }
            },
        }
        Ok(VirusDeploymentOutcome { breakdown, installed, net_actions_consumed })
    }
}

} // verus!

//! Interface Ability: Cloak — hide the Netrunner's traces.
//!
//! A NET Action: `INT + Interface + 1d10`. The check total becomes the DV a
//! hostile Pathfinder must beat (clamped into `0..=255`). A refusal for
//! want of NET Actions leaves the world as it was. There is no DV to beat, so the breakdown is built against
//! DV 0. A new Cloak replaces the previous one.

use vstd::prelude::*;
use crate::dice::d10_with_crits;
use crate::error::RulesError;
use crate::netrunning::abilities::{interface_check, luck_refusal, luck_spent};
use crate::netrunning::state::NetrunState;
use crate::resolution::{CheckBreakdown, Resolution};
use crate::types::{EntityId, DV};
use crate::world::World;
use rand_chacha::ChaCha20Rng;

verus! {

/// The Cloak DV of a check total: the total clamped into `0..=255`.
pub open spec fn spec_cloak_dv(final_value: i16) -> DV {
    DV(if final_value < 0 { 0 } else if final_value > 255 { 255 } else { final_value as u8 })
}

/// The Cloak DV is the check total itself when it lies in `0..=255`; a
/// negative total gives DV 0 and one above 255 gives DV 255.
pub proof fn lemma_cloak_dv_is_total(final_value: i16)
    ensures
        0 <= final_value <= 255 ==> spec_cloak_dv(final_value).0 == final_value,
        final_value < 0 ==> spec_cloak_dv(final_value).0 == 0,
        final_value > 255 ==> spec_cloak_dv(final_value).0 == 255,
{
}

/// A Cloak NET Action.
#[derive(Clone, Copy, Debug, PartialEq, Eq, Structural)]
pub struct CloakAction {
    /// The Netrunner; must be a character of the world.
    pub netrunner: EntityId,
    /// LUCK to spend before the roll.
    pub luck_to_spend: u8,
}

/// Outcome of a Cloak.
#[derive(Clone, Copy, Debug, PartialEq, Eq, Structural)]
pub struct CloakOutcome {
    /// The check, built against DV 0.
    pub breakdown: CheckBreakdown,
    /// The DV a hostile Pathfinder must beat; also written to the netrun.
    pub cloak_dv: DV,
}

/// The Cloak DV of a check total.
pub fn cloak_dv_of(final_value: i16) -> (dv: DV)
    ensures
        dv == spec_cloak_dv(final_value),
{
    if final_value < 0 {
        DV(0)
    } else if final_value > 255 {
        DV(255)
    } else {
        DV(final_value as u8)
    }
}

impl CloakAction {
    /// Why the Cloak is refused in `w`, if it is: the character and LUCK
    /// checks, then no netrun, then no NET Action left.
    pub open spec fn refusal(&self, w: World) -> Option<RulesError> {
        match luck_refusal(w, self.netrunner, self.luck_to_spend) {
            Some(e) => Some(e),
            None => match w.netrun {
                None => Some(RulesError::NoActiveNetrun),
                Some(nr) => if nr.net_actions_used_this_turn >= nr.net_actions_max_this_turn {
                    Some(RulesError::NoNetActionsRemaining)
                } else {
                    None
                },
            },
        }
    }
}

impl Resolution for CloakAction {
    type Outcome = Result<CloakOutcome, RulesError>;

    /// Resolve the Cloak. Refusals, in the order they are checked: no such
    /// character, not enough LUCK, no netrun (the LUCK is spent first, and
    /// lost), no NET Action left. None of them rolls a die, and all but the
    /// missing netrun leave the world as it was.
    fn resolve(&self, world: &mut World, rng: &mut ChaCha20Rng) -> (r: Self::Outcome)
        ensures
            self.refusal(*old(world)) is Some ==> *final(rng) == *old(rng),
            self.refusal(*old(world)) matches Some(e) ==> r == Err::<CloakOutcome, RulesError>(e) && (if e
                == RulesError::NoActiveNetrun {
                luck_spent(*old(world), *final(world), self.netrunner, self.luck_to_spend)
                    && final(world).netrun is None
            } else {
                *final(world) == *old(world)
            }),
            self.refusal(*old(world)) is None ==> (r matches Ok(o) && {
                let nr = old(world).netrun.unwrap();
                &&& luck_spent(*old(world), *final(world), self.netrunner, self.luck_to_spend)
                &&& o.breakdown.d10.wf()
                &&& o.breakdown == interface_check(
                    *old(world),
                    self.netrunner,
                    self.luck_to_spend,
                    o.breakdown.d10,
                    DV(0),
                )
                &&& o.cloak_dv == spec_cloak_dv(o.breakdown.final_value)
                &&& final(world).netrun == Some(NetrunState {
                    cloak_dv: Some(o.cloak_dv),
                    net_actions_used_this_turn: (nr.net_actions_used_this_turn + 1) as u8,
                    ..nr
                })
            }),
    {
        match world.entity(self.netrunner) {
            None => { return Err(RulesError::EntityNotFound(self.netrunner)); },
            Some(c) => {
                if self.luck_to_spend > c.luck_pool {
                    return Err(
                        RulesError::InsufficientLuck { requested: self.luck_to_spend, available: c.luck_pool },
                    );
                }
            },
        }
        match &world.netrun {
            None => {
                let _ = world.spend_luck_and_read(self.netrunner, self.luck_to_spend);
                return Err(RulesError::NoActiveNetrun);
            },
            Some(nr) => {
                if nr.net_actions_used_this_turn >= nr.net_actions_max_this_turn {
                    return Err(RulesError::NoNetActionsRemaining);
                }
            },
        }
        let (int_value, interface_rank) = match world.spend_luck_and_read(self.netrunner, self.luck_to_spend) {
            Ok(v) => v,
            Err(e) => { return Err(e); },
        };
        let d10 = d10_with_crits(rng);
        let breakdown = CheckBreakdown::new(int_value, interface_rank, 0, self.luck_to_spend, d10, DV(0));
        let cloak_dv = cloak_dv_of(breakdown.final_value);
        match world.netrun.as_mut() {
            None => Err(RulesError::NoActiveNetrun),
            Some(nr) => {
                nr.cloak_dv = Some(cloak_dv);
                nr.net_actions_used_this_turn = nr.net_actions_used_this_turn + 1;
                Ok(CloakOutcome { breakdown, cloak_dv })
            },
        }
    }
}

} // verus!

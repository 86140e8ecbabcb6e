//! Interface Ability: Backdoor — get past a Password floor.
//!
//! A NET Action: `INT + Interface + 1d10` against the Password's DV. On a
//! success the Netrunner moves on to the next floor; either way one NET
//! Action is spent. The current floor must be a Password; any other floor
//! is refused before anything is spent.

use vstd::prelude::*;
use crate::dice::d10_with_crits;
use crate::error::RulesError;
use crate::netrunning::abilities::{interface_check, luck_refusal, luck_spent};
use crate::netrunning::architecture::Floor;
use crate::netrunning::state::NetrunState;
use crate::resolution::{CheckBreakdown, Resolution};
use crate::types::{EntityId, DV};
use crate::world::World;
use rand_chacha::ChaCha20Rng;

verus! {

/// The name of a floor's kind.
pub open spec fn floor_kind_name(f: Floor) -> &'static str {
    match f {
        Floor::Password { .. } => "Password",
        Floor::ControlNode { .. } => "ControlNode",
        Floor::File { .. } => "File",
        Floor::BlackIce { .. } => "BlackIce",
        Floor::Demon { .. } => "Demon",
    }
}

/// A Backdoor NET Action against the current floor of `floors`.
#[derive(Clone, Debug, PartialEq, Eq)]
pub struct BackdoorAction {
    /// The Netrunner; must be a character of the world.
    pub netrunner: EntityId,
    /// LUCK to spend before the roll.
    pub luck_to_spend: u8,
    /// The floors of the Architecture being run; the action reads
    /// `floors[current_floor]`.
    pub floors: Vec<Floor>,
}

/// Outcome of a Backdoor.
#[derive(Clone, Copy, Debug, PartialEq, Eq, Structural)]
pub struct BackdoorOutcome {
    /// The Interface check against the Password's DV.
    pub breakdown: CheckBreakdown,
    /// Whether the Password was passed; equals `breakdown.success`.
    pub passed: bool,
}

impl BackdoorAction {
    /// Why the Backdoor is refused in `w`, if it is: no netrun, no NET
    /// Action left, the current floor is not a Password (or lies past the
    /// end of `floors`), then the character and LUCK checks.
    pub open spec fn refusal(&self, w: World) -> Option<RulesError> {
        match w.netrun {
            None => Some(RulesError::NoActiveNetrun),
            Some(nr) => if nr.net_actions_used_this_turn >= nr.net_actions_max_this_turn {
                Some(RulesError::NoNetActionsRemaining)
            } else if nr.current_floor >= self.floors@.len() {
                Some(
                    RulesError::WrongFloorType {
                        expected: "Password",
                        found: "out-of-bounds floor index",
                    },
                )
            } else if !(self.floors@[nr.current_floor as int] is Password) {
                Some(
                    RulesError::WrongFloorType {
                        expected: "Password",
                        found: floor_kind_name(self.floors@[nr.current_floor as int]),
                    },
                )
            } else {
                luck_refusal(w, self.netrunner, self.luck_to_spend)
            },
        }
    }
}

/// A Backdoor needs a netrun, a NET Action left this Turn and a Password on
/// the current floor; lacking one, it is refused (and changes nothing).
pub proof fn lemma_backdoor_refusals(a: BackdoorAction, w: World)
    ensures
        w.netrun is None ==> a.refusal(w) == Some(RulesError::NoActiveNetrun),
        w.netrun is Some && w.netrun.unwrap().net_actions_used_this_turn >= w.netrun.unwrap().net_actions_max_this_turn
            ==> a.refusal(w) == Some(RulesError::NoNetActionsRemaining),
        w.netrun is Some && w.netrun.unwrap().net_actions_used_this_turn < w.netrun.unwrap().net_actions_max_this_turn
            && w.netrun.unwrap().current_floor < a.floors@.len() && !(
        a.floors@[w.netrun.unwrap().current_floor as int] is Password) ==> a.refusal(w) matches Some(
            RulesError::WrongFloorType { .. },
        ),
        w.netrun is Some && w.netrun.unwrap().net_actions_used_this_turn < w.netrun.unwrap().net_actions_max_this_turn
            && w.netrun.unwrap().current_floor < a.floors@.len()
            && a.floors@[w.netrun.unwrap().current_floor as int] is Password ==> a.refusal(w) == luck_refusal(
            w,
            a.netrunner,
            a.luck_to_spend,
        ),
{
}

impl Resolution for BackdoorAction {
    type Outcome = Result<BackdoorOutcome, RulesError>;

    /// Resolve the Backdoor.
    fn resolve(&self, world: &mut World, rng: &mut ChaCha20Rng) -> (r: Self::Outcome)
        ensures
            self.refusal(*old(world)) matches Some(e) ==> r == Err::<BackdoorOutcome, RulesError>(e)
                && *final(world) == *old(world) && *final(rng) == *old(rng),
            self.refusal(*old(world)) is None ==> (r matches Ok(o) && {
                let nr = old(world).netrun.unwrap();
                let dv = self.floors@[nr.current_floor as int]->Password_dv;
                &&& o.breakdown.d10.wf()
                &&& o.breakdown == interface_check(*old(world), self.netrunner, self.luck_to_spend, o.breakdown.d10, dv)
                &&& o.passed == o.breakdown.success
                &&& luck_spent(*old(world), *final(world), self.netrunner, self.luck_to_spend)
                &&& final(world).netrun == Some(NetrunState {
                    net_actions_used_this_turn: (nr.net_actions_used_this_turn + 1) as u8,
                    current_floor: if o.passed { (nr.current_floor + 1) as usize } else { nr.current_floor },
                    ..nr
                })
            }),
    {
        let (used, max, current_floor) = match &world.netrun {
            None => { return Err(RulesError::NoActiveNetrun); },
            Some(nr) => (nr.net_actions_used_this_turn, nr.net_actions_max_this_turn, nr.current_floor),
        };
        if used >= max {
            return Err(RulesError::NoNetActionsRemaining);
        }
        if current_floor >= self.floors.len() {
            return Err(RulesError::WrongFloorType { expected: "Password", found: "out-of-bounds floor index" });
        }
        let dv: DV = match &self.floors[current_floor] {
            Floor::Password { dv } => *dv,
            Floor::BlackIce { .. } => {
                return Err(RulesError::WrongFloorType { expected: "Password", found: "BlackIce" });
            },
            Floor::ControlNode { .. } => {
                return Err(RulesError::WrongFloorType { expected: "Password", found: "ControlNode" });
            },
            Floor::File { .. } => {
                return Err(RulesError::WrongFloorType { expected: "Password", found: "File" });
            },
            Floor::Demon { .. } => {
                return Err(RulesError::WrongFloorType { expected: "Password", found: "Demon" });
            },
        };
        let (int_value, interface_rank) = match world.spend_luck_and_read(self.netrunner, self.luck_to_spend) {
            Ok(v) => v,
            Err(e) => { return Err(e); },
        };
        let d10 = d10_with_crits(rng);
        let breakdown = CheckBreakdown::new(int_value, interface_rank, 0, self.luck_to_spend, d10, dv);
        let passed = breakdown.success;
        match world.netrun.as_mut() {
            Some(nr) => {
                nr.net_actions_used_this_turn = nr.net_actions_used_this_turn + 1;
                if passed {
                    nr.current_floor = nr.current_floor + 1;
                }
            },
            None => {},
        }
        Ok(BackdoorOutcome { breakdown, passed })
    }
}

} // verus!

//! Interface Ability: Pathfinder — reveal the floors ahead.
//!
//! A NET Action: `INT + Interface + 1d10`. The check total (0 when
//! negative) is how many floors ahead may be revealed; the reveal stops
//! before any Password whose DV exceeds the total, and never runs past the
//! Architecture. The breakdown is built against DV 0.

use vstd::prelude::*;
use crate::dice::d10_with_crits;
use crate::error::RulesError;
use crate::netrunning::abilities::{interface_check, luck_refusal, luck_spent};
use crate::netrunning::abilities::eye_dee::inc_saturating;
use crate::netrunning::architecture::{Floor, NetArchitecture};
use crate::netrunning::state::NetrunState;
use crate::resolution::{CheckBreakdown, Resolution};
use crate::types::{EntityId, DV};
use crate::world::World;
use rand_chacha::ChaCha20Rng;

verus! {

/// A Pathfinder NET Action.
#[derive(Clone, Copy, Debug, PartialEq, Eq, Structural)]
pub struct PathfinderAction {
    /// The Netrunner; must be a character of the world.
    pub netrunner: EntityId,
    /// LUCK to spend before the roll.
    pub luck_to_spend: u8,
}

/// Outcome of a Pathfinder.
#[derive(Clone, Copy, Debug, PartialEq, Eq, Structural)]
pub struct PathfinderOutcome {
    /// The check, built against DV 0.
    pub breakdown: CheckBreakdown,
    /// How many floors ahead of the current one were revealed.
    pub floors_revealed: usize,
}

/// A floor that stops the reveal: a Password whose DV exceeds the check.
pub open spec fn blocks_reveal(f: Floor, check_value: i16) -> bool {
    f matches Floor::Password { dv } && dv.0 > check_value
}

/// How far ahead the reveal may go at most: `raw_reveal`, and no further
/// than the last floor of an Architecture of `total_floors` floors.
pub open spec fn reveal_limit(current_floor: usize, raw_reveal: usize, total_floors: usize) -> int {
    let room: int = if total_floors > current_floor { total_floors - current_floor - 1 } else { 0 };
    if raw_reveal < room { raw_reveal as int } else { room }
}

/// `k` floors are revealed: none of the `k` floors after the current one
/// stops the reveal, and either the limit is reached or the next floor stops it.
pub open spec fn is_revealed_count(
    floors: Seq<Floor>,
    current_floor: usize,
    raw_reveal: usize,
    check_value: i16,
    total_floors: usize,
    k: int,
) -> bool {
    let limit = reveal_limit(current_floor, raw_reveal, total_floors);
    &&& 0 <= k <= limit
    &&& forall|j: int| 1 <= j <= k ==> !blocks_reveal(#[trigger] floors[current_floor + j], check_value)
    &&& k < limit ==> blocks_reveal(floors[current_floor + k + 1], check_value)
}

/// Count the floors revealed ahead of `current_floor`.
pub fn count_revealed_floors(
    floors: &[Floor],
    current_floor: usize,
    raw_reveal: usize,
    check_value: i16,
    total_floors: usize,
) -> (revealed: usize)
    requires
        total_floors <= floors@.len(),
    ensures
        is_revealed_count(floors@, current_floor, raw_reveal, check_value, total_floors, revealed as int),
        revealed <= raw_reveal,
        current_floor < total_floors ==> current_floor + revealed < total_floors,
        current_floor >= total_floors ==> revealed == 0,
{
    let max_from_position = if total_floors > current_floor { total_floors - current_floor } else { 0 };
    let look_ahead = if raw_reveal < max_from_position { raw_reveal } else { max_from_position };
    let ghost limit = reveal_limit(current_floor, raw_reveal, total_floors);
    let mut revealed: usize = 0;
    let mut i: usize = 1;
    while i <= look_ahead
        invariant
            1 <= i,
            i <= look_ahead + 1,
            look_ahead <= max_from_position,
            max_from_position == (if total_floors > current_floor { total_floors - current_floor } else { 0 }),
            look_ahead == (if raw_reveal < max_from_position { raw_reveal } else { max_from_position }),
            limit == reveal_limit(current_floor, raw_reveal, total_floors),
            total_floors <= floors@.len(),
            revealed == i - 1,
            revealed <= limit,
            forall|j: int| 1 <= j <= revealed ==> !blocks_reveal(#[trigger] floors@[current_floor + j], check_value),
        ensures
            revealed <= limit,
            forall|j: int| 1 <= j <= revealed ==> !blocks_reveal(#[trigger] floors@[current_floor + j], check_value),
            revealed < limit ==> blocks_reveal(floors@[current_floor + revealed + 1], check_value),
        decreases look_ahead + 1 - i,
    {
        let floor_idx = current_floor + i;
        if floor_idx >= total_floors {
            break;
        }
        match &floors[floor_idx] {
            Floor::Password { dv } => {
                if dv.0 as i16 > check_value {
                    break;
                }
            },
            _ => {},
        }
        revealed = revealed + 1;
        i = i + 1;
    }
    revealed
}

/// `a + b`, saturating at `usize::MAX`.
pub open spec fn add_saturating(a: int, b: int) -> usize {
    if a + b > usize::MAX { usize::MAX } else { (a + b) as usize }
}

/// The new count of revealed floors after `ahead` more are seen from the
/// current floor, capped at `cap` (the floors after the current one that
/// exist): it never goes down.
pub open spec fn spec_new_revealed(nr: NetrunState, ahead: int, cap: int) -> usize {
    let seen = add_saturating(nr.current_floor + 1, ahead);
    let capped: int = if seen < cap { seen as int } else { cap };
    if capped > nr.revealed_floors { capped as usize } else { nr.revealed_floors }
}

/// A Pathfinder never forgets floors: the new count is the old one or the
/// floors seen up to `ahead` past the current one, capped at `cap`,
/// whichever is larger.
pub proof fn lemma_new_revealed_monotone(nr: NetrunState, ahead: int, cap: int)
    requires
        0 <= ahead,
        0 <= cap <= usize::MAX,
    ensures
        spec_new_revealed(nr, ahead, cap) >= nr.revealed_floors,
        spec_new_revealed(nr, ahead, cap) == vstd::math::max(
            nr.revealed_floors as int,
            vstd::math::min(nr.current_floor + 1 + ahead, cap),
        ),
{
}

/// The raw reveal of a check total: 0 when negative.
pub open spec fn spec_raw_reveal(final_value: i16) -> usize {
    (if final_value < 0 { 0 } else { final_value as int }) as usize
}

/// The check total is how many floors ahead may be revealed (none when it is
/// negative), and only a Password whose DV is above the total stops the
/// reveal: one at exactly the total does not, nor does any other floor.
pub proof fn lemma_reveal_reach(final_value: i16, f: Floor)
    ensures
        final_value >= 0 ==> spec_raw_reveal(final_value) == final_value,
        final_value < 0 ==> spec_raw_reveal(final_value) == 0,
        f matches Floor::Password { dv } ==> (blocks_reveal(f, final_value) <==> dv.0 > final_value),
        !(f is Password) ==> !blocks_reveal(f, final_value),
{
}

impl Resolution for PathfinderAction {
    type Outcome = Result<PathfinderOutcome, RulesError>;

    /// Resolve the Pathfinder without the Architecture: every floor within
    /// the check total is revealed, with no Password stop and no cap.
    fn resolve(&self, world: &mut World, rng: &mut ChaCha20Rng) -> (r: Self::Outcome)
        ensures
            luck_refusal(*old(world), self.netrunner, self.luck_to_spend) matches Some(e) ==> r
                == Err::<PathfinderOutcome, RulesError>(e) && *final(world) == *old(world) && *final(rng) == *old(rng),
            luck_refusal(*old(world), self.netrunner, self.luck_to_spend) is None ==> (r matches Ok(o)
                && {
                &&& o.breakdown.d10.wf()
                &&& o.breakdown == interface_check(
                    *old(world),
                    self.netrunner,
                    self.luck_to_spend,
                    o.breakdown.d10,
                    DV(0),
                )
                &&& o.floors_revealed == spec_raw_reveal(o.breakdown.final_value)
                &&& luck_spent(*old(world), *final(world), self.netrunner, self.luck_to_spend)
                &&& final(world).netrun == match old(world).netrun {
                    None => None,
                    Some(nr) => Some(NetrunState {
                        net_actions_used_this_turn: inc_saturating(nr.net_actions_used_this_turn),
                        revealed_floors: spec_new_revealed(nr, o.floors_revealed as int, usize::MAX as int),
                        ..nr
                    }),
                }
                &&& old(world).netrun matches Some(nr) ==> (final(world).netrun matches Some(nr2)
                    && nr2.revealed_floors >= nr.revealed_floors && nr2.revealed_floors == vstd::math::max(
                    nr.revealed_floors as int,
                    vstd::math::min(nr.current_floor + 1 + o.floors_revealed, usize::MAX as int),
                ))
            }),
    {
        let (int_value, interface_rank) = match world.spend_luck_and_read(self.netrunner, self.luck_to_spend) {
            Ok(v) => v,
            Err(e) => { return Err(e); },
        };
        let d10 = d10_with_crits(rng);
        let breakdown = CheckBreakdown::new(int_value, interface_rank, 0, self.luck_to_spend, d10, DV(0));
        let floors_revealed: usize = if breakdown.final_value < 0 { 0 } else { breakdown.final_value as usize };
        match world.netrun.as_mut() {
            Some(nr) => {
                if nr.net_actions_used_this_turn < 255 {
                    nr.net_actions_used_this_turn = nr.net_actions_used_this_turn + 1;
                }
                let new_revealed = nr.current_floor.saturating_add(1).saturating_add(floors_revealed);
                if new_revealed > nr.revealed_floors {
                    nr.revealed_floors = new_revealed;
                }
            },
            None => {},
        }
        Ok(PathfinderOutcome { breakdown, floors_revealed })
    }
}

impl PathfinderAction {
    /// Resolve the Pathfinder against the Architecture `arch`: the reveal
    /// stops before a Password whose DV exceeds the check total, and the
    /// revealed count never exceeds the Architecture's floor count (nor
    /// goes down). The reveal starts from the netrun's current floor, or
    /// from floor 0 when there is no netrun.
    pub fn resolve_with_architecture(
        &self,
        world: &mut World,
        rng: &mut ChaCha20Rng,
        arch: &NetArchitecture,
    ) -> (r: Result<PathfinderOutcome, RulesError>)
        ensures
            luck_refusal(*old(world), self.netrunner, self.luck_to_spend) matches Some(e) ==> r
                == Err::<PathfinderOutcome, RulesError>(e) && *final(world) == *old(world) && *final(rng) == *old(rng),
            luck_refusal(*old(world), self.netrunner, self.luck_to_spend) is None ==> (r matches Ok(o)
                && {
                let current = match old(world).netrun {
                    Some(nr) => nr.current_floor,
                    None => 0usize,
                };
                &&& o.breakdown.d10.wf()
                &&& o.breakdown == interface_check(
                    *old(world),
                    self.netrunner,
                    self.luck_to_spend,
                    o.breakdown.d10,
                    DV(0),
                )
                &&& is_revealed_count(
                    arch.floors@,
                    current,
                    spec_raw_reveal(o.breakdown.final_value),
                    o.breakdown.final_value,
                    arch.floors@.len() as usize,
                    o.floors_revealed as int,
                )
                &&& luck_spent(*old(world), *final(world), self.netrunner, self.luck_to_spend)
                &&& final(world).netrun == match old(world).netrun {
                    None => None,
                    Some(nr) => Some(NetrunState {
                        net_actions_used_this_turn: inc_saturating(nr.net_actions_used_this_turn),
                        revealed_floors: spec_new_revealed(nr, o.floors_revealed as int, arch.floors@.len() as int),
                        ..nr
                    }),
                }
                &&& old(world).netrun matches Some(nr) ==> (final(world).netrun matches Some(nr2)
                    && nr2.revealed_floors >= nr.revealed_floors && nr2.revealed_floors == vstd::math::max(
                    nr.revealed_floors as int,
                    vstd::math::min(nr.current_floor + 1 + o.floors_revealed, arch.floors@.len() as int),
                ))
            }),
    {
        let (int_value, interface_rank) = match world.spend_luck_and_read(self.netrunner, self.luck_to_spend) {
            Ok(v) => v,
            Err(e) => { return Err(e); },
        };
        let d10 = d10_with_crits(rng);
        let breakdown = CheckBreakdown::new(int_value, interface_rank, 0, self.luck_to_spend, d10, DV(0));
        let raw_reveal: usize = if breakdown.final_value < 0 { 0 } else { breakdown.final_value as usize };
        let current_floor: usize = match &world.netrun {
            Some(nr) => nr.current_floor,
            None => 0,
        };
        let total_floors = arch.floors.len();
        let floors_revealed = count_revealed_floors(
            arch.floors.as_slice(),
            current_floor,
            raw_reveal,
            breakdown.final_value,
            total_floors,
        );
        match world.netrun.as_mut() {
            Some(nr) => {
                if nr.net_actions_used_this_turn < 255 {
                    nr.net_actions_used_this_turn = nr.net_actions_used_this_turn + 1;
                }
                let seen = nr.current_floor.saturating_add(1).saturating_add(floors_revealed);
                let new_revealed = if seen < total_floors { seen } else { total_floors };
                if new_revealed > nr.revealed_floors {
                    nr.revealed_floors = new_revealed;
                }
            },
            None => {},
        }
        Ok(PathfinderOutcome { breakdown, floors_revealed })
    }
}

} // verus!

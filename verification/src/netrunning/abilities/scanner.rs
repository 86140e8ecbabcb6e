//! Interface Ability: Scanner — find NET Architecture access points nearby.
//!
//! A Meat Action (no NET Action is spent and no netrun is needed):
//! `INT + Interface + 1d10` against DV 13. A success finds `margin / 2`
//! access points, at least one; a failure finds none. The ids found are
//! placeholders `scanned_0`, `scanned_1`, ... until a scene layer names them.

use vstd::prelude::*;
use crate::text::{decimal, push_decimal, push_text};
use crate::dice::d10_with_crits;
use crate::error::RulesError;
use crate::netrunning::abilities::{interface_check, luck_refusal, luck_spent};
use crate::netrunning::architecture::NetArchId;
use crate::resolution::{CheckBreakdown, Resolution};
use crate::types::{EntityId, DV};
use crate::world::World;
use rand_chacha::ChaCha20Rng;

verus! {

/// The DV of a Scanner check: 13.
pub fn scanner_default_dv() -> (dv: DV)
    ensures
        dv == DV(13),
{
    DV(13)
}

/// The placeholder id of the `i`-th access point found.
pub open spec fn spec_scanned_id(i: nat) -> Seq<char> {
    seq!['s', 'c', 'a', 'n', 'n', 'e', 'd', '_'] + decimal(i)
}

/// The placeholder id of the `i`-th access point found: `scanned_` and
/// `i` in decimal.
fn scanned_label(i: usize) -> (s: String)
    ensures
        s@ == spec_scanned_id(i as nat),
{
    let mut s = String::new();
    push_text(&mut s, "scanned_");
    push_decimal(&mut s, i);
    proof {
        reveal_strlit("scanned_");
        assert(s@ =~= spec_scanned_id(i as nat));
    }
    s
}

/// How many access points a check finds: `margin / 2`, at least 1, on a
/// success; none on a failure.
pub open spec fn spec_access_point_count(b: CheckBreakdown) -> int {
    if b.success {
        if b.margin / 2 >= 1 { (b.margin / 2) as int } else { 1 }
    } else {
        0
    }
}

/// A successful check finds half its margin of access points, rounded down,
/// and never fewer than one; a failed check finds none.
pub proof fn lemma_access_point_count(b: CheckBreakdown)
    ensures
        b.success && b.margin < 2 ==> spec_access_point_count(b) == 1,
        b.success && b.margin >= 2 ==> spec_access_point_count(b) == b.margin / 2,
        !b.success ==> spec_access_point_count(b) == 0,
{
}

/// A Scanner Meat Action.
#[derive(Clone, Copy, Debug, PartialEq, Eq, Structural)]
pub struct ScannerAction {
    /// The Netrunner; must be a character of the world.
    pub netrunner: EntityId,
    /// LUCK to spend before the roll.
    pub luck_to_spend: u8,
}

/// Outcome of a Scanner.
#[derive(Clone, Debug, PartialEq, Eq)]
pub struct ScannerOutcome {
    /// The check against DV 13.
    pub breakdown: CheckBreakdown,
    /// Placeholder ids of the access points found.
    pub access_points_found: Vec<NetArchId>,
}

impl Resolution for ScannerAction {
    type Outcome = Result<ScannerOutcome, RulesError>;

    /// Resolve the Scanner.
    fn resolve(&self, world: &mut World, rng: &mut ChaCha20Rng) -> (r: Self::Outcome)
        ensures
            luck_refusal(*old(world), self.netrunner, self.luck_to_spend) matches Some(e) ==> r
                == Err::<ScannerOutcome, RulesError>(e) && *final(world) == *old(world) && *final(rng) == *old(rng),
            luck_refusal(*old(world), self.netrunner, self.luck_to_spend) is None ==> (r matches Ok(o)
                && {
                &&& o.breakdown.d10.wf()
                &&& o.breakdown == interface_check(
                    *old(world),
                    self.netrunner,
                    self.luck_to_spend,
                    o.breakdown.d10,
                    DV(13),
                )
                &&& o.access_points_found@.len() == spec_access_point_count(o.breakdown)
                &&& o.breakdown.success ==> o.access_points_found@.len() == (if o.breakdown.margin
                    < 2 { 1 } else { o.breakdown.margin / 2 })
                &&& !o.breakdown.success ==> o.access_points_found@.len() == 0
                &&& forall|i: int|
                    0 <= i < o.access_points_found@.len() ==> (#[trigger] o.access_points_found@[i]).0@
                        == spec_scanned_id(i as nat)
                &&& luck_spent(*old(world), *final(world), self.netrunner, self.luck_to_spend)
                &&& final(world).netrun == old(world).netrun
            }),
    {
        let (int_value, interface_rank) = match world.spend_luck_and_read(self.netrunner, self.luck_to_spend) {
            Ok(v) => v,
            Err(e) => { return Err(e); },
        };
        let d10 = d10_with_crits(rng);
        let breakdown = CheckBreakdown::new(
            int_value,
            interface_rank,
            0,
            self.luck_to_spend,
            d10,
            scanner_default_dv(),
        );
        let count: usize = if breakdown.success {
            let half = breakdown.margin / 2;
            if half >= 1 { half as usize } else { 1 }
        } else {
            0
        };
        let mut access_points_found: Vec<NetArchId> = Vec::new();
        let mut i: usize = 0;
        while i < count
            invariant
                i <= count,
                access_points_found@.len() == i,
                forall|j: int|
                    0 <= j < i ==> (#[trigger] access_points_found@[j]).0@ == spec_scanned_id(j as nat),
            decreases count - i,
        {
            access_points_found.push(NetArchId(scanned_label(i)));
            i = i + 1;
        }
        Ok(ScannerOutcome { breakdown, access_points_found })
    }
}

} // verus!

//! Interface Ability: Eye-Dee — learn what a File holds.
//!
//! A NET Action: `INT + Interface + 1d10` against the File's DV. On a
//! success against a File floor the contents are identified; on a failure,
//! or on any other floor, nothing is learned. A NET Action is spent on the
//! netrun in progress, if there is one.

use vstd::prelude::*;
use crate::dice::d10_with_crits;
use crate::error::RulesError;
use crate::netrunning::abilities::{interface_check, luck_refusal, luck_spent};
use crate::netrunning::architecture::{FileContents, Floor};
use crate::netrunning::state::NetrunState;
use crate::resolution::{CheckBreakdown, Resolution};
use crate::types::{EntityId, DV};
use crate::world::World;
use rand_chacha::ChaCha20Rng;

verus! {

/// An Eye-Dee NET Action on `floor`.
#[derive(Clone, Debug, PartialEq, Eq)]
pub struct EyeDeeAction {
    /// The Netrunner; must be a character of the world.
    pub netrunner: EntityId,
    /// LUCK to spend before the roll.
    pub luck_to_spend: u8,
    /// The File's DV.
    pub dv: DV,
    /// The floor inspected.
    pub floor: Floor,
}

/// Outcome of an Eye-Dee.
#[derive(Clone, Debug, PartialEq, Eq)]
pub struct EyeDeeOutcome {
    /// The check against the File's DV.
    pub breakdown: CheckBreakdown,
    /// What was learned, if anything.
    pub identification: Option<IdentificationDetail>,
}

/// What Eye-Dee reveals about a File.
#[derive(Clone, Debug, PartialEq, Eq)]
pub enum IdentificationDetail {
    /// Real data, with its description.
    File(String),
    /// A dummy.
    DecoyDetected,
    /// Encrypted; a second check at `unlock_dv` opens it.
    Encrypted { unlock_dv: DV },
}

/// What the contents of a File tell a successful Eye-Dee.
pub open spec fn spec_map_contents(contents: FileContents) -> IdentificationDetail {
    match contents {
        FileContents::Data(d) => IdentificationDetail::File(d),
        FileContents::Decoy => IdentificationDetail::DecoyDetected,
        FileContents::Encrypted { unlock_dv } => IdentificationDetail::Encrypted { unlock_dv },
    }
}

/// What the contents of a File tell a successful Eye-Dee.
pub fn map_contents(contents: &FileContents) -> (r: IdentificationDetail)
    ensures
        r == spec_map_contents(*contents),
{
    match contents {
        FileContents::Data(description) => IdentificationDetail::File(description.clone()),
        FileContents::Decoy => IdentificationDetail::DecoyDetected,
        FileContents::Encrypted { unlock_dv } => IdentificationDetail::Encrypted { unlock_dv: *unlock_dv },
    }
}

/// What an Eye-Dee with this success on this floor identifies.
pub open spec fn spec_identification(success: bool, floor: Floor) -> Option<IdentificationDetail> {
    if success {
        match floor {
            Floor::File { contents, .. } => Some(spec_map_contents(contents)),
            _ => None,
        }
    } else {
        None
    }
}

/// An Eye-Dee learns something only on a success and only on a File: real
/// data shows its description, a decoy shows as a decoy, and an encrypted
/// File shows the DV that unlocks it.
pub proof fn lemma_identification_cases(success: bool, floor: Floor)
    ensures
        !success ==> spec_identification(success, floor) is None,
        !(floor is File) ==> spec_identification(success, floor) is None,
        success ==> (floor matches Floor::File { contents: FileContents::Data(d), .. } ==> spec_identification(
            success,
            floor,
        ) == Some(IdentificationDetail::File(d))),
        success ==> (floor matches Floor::File { contents: FileContents::Decoy, .. } ==> spec_identification(
            success,
            floor,
        ) == Some(IdentificationDetail::DecoyDetected)),
        success ==> (floor matches Floor::File { contents: FileContents::Encrypted { unlock_dv }, .. }
            ==> spec_identification(success, floor) == Some(IdentificationDetail::Encrypted { unlock_dv })),
{
}

/// `n + 1`, saturating at 255.
pub open spec fn inc_saturating(n: u8) -> u8 {
    if n == 255 { 255 } else { (n + 1) as u8 }
}

impl Resolution for EyeDeeAction {
    type Outcome = Result<EyeDeeOutcome, RulesError>;

    /// Resolve the Eye-Dee. No NET Action budget is checked; the counter
    /// rises by one (saturating) when a netrun is in progress.
    fn resolve(&self, world: &mut World, rng: &mut ChaCha20Rng) -> (r: Self::Outcome)
        ensures
            luck_refusal(*old(world), self.netrunner, self.luck_to_spend) matches Some(e) ==> r
                == Err::<EyeDeeOutcome, RulesError>(e) && *final(world) == *old(world) && *final(rng) == *old(rng),
            luck_refusal(*old(world), self.netrunner, self.luck_to_spend) is None ==> (r matches Ok(o)
                && {
                &&& o.breakdown.d10.wf()
                &&& o.breakdown == interface_check(
                    *old(world),
                    self.netrunner,
                    self.luck_to_spend,
                    o.breakdown.d10,
                    self.dv,
                )
                &&& o.identification == spec_identification(o.breakdown.success, self.floor)
                &&& luck_spent(*old(world), *final(world), self.netrunner, self.luck_to_spend)
                &&& final(world).netrun == match old(world).netrun {
                    None => None,
                    Some(nr) => Some(NetrunState {
                        net_actions_used_this_turn: inc_saturating(nr.net_actions_used_this_turn),
                        ..nr
                    }),
                }
            }),
    {
        let (int_value, interface_rank) = match world.spend_luck_and_read(self.netrunner, self.luck_to_spend) {
            Ok(v) => v,
            Err(e) => { return Err(e); },
        };
        let d10 = d10_with_crits(rng);
        let breakdown = CheckBreakdown::new(int_value, interface_rank, 0, self.luck_to_spend, d10, self.dv);
        let identification = if breakdown.success {
            match &self.floor {
                Floor::File { contents, .. } => Some(map_contents(contents)),
                _ => None,
            }
        } else {
            None
        };
        match world.netrun.as_mut() {
            Some(nr) => {
                if nr.net_actions_used_this_turn < 255 {
                    nr.net_actions_used_this_turn = nr.net_actions_used_this_turn + 1;
                }
            },
            None => {},
        }
        Ok(EyeDeeOutcome { breakdown, identification })
    }
}

} // verus!

//! The shared record of a roll-versus-DV check.

use vstd::prelude::*;
use crate::dice::CritD10;
use crate::types::DV;
pub use crate::world::World;
use rand_chacha::ChaCha20Rng;

verus! {

/// Anything in the rules engine that produces a probabilistic outcome.
///
/// Implementations draw all randomness from `rng`, in a fixed order for a
/// given input, and never read the clock, thread-local state or the OS, so
/// that a game can be replayed from its seed and its action log.
pub trait Resolution {
    /// The structured result of the resolution.
    type Outcome;

    /// Run the resolution against `world`, drawing randomness from `rng`.
    fn resolve(&self, world: &mut World, rng: &mut ChaCha20Rng) -> Self::Outcome;
}

/// Structured outcome of any roll-versus-DV check.
///
/// When built with [`CheckBreakdown::new`]:
/// `final_value == stat_value + skill_value + modifier_total + luck_spent + d10.net`,
/// `margin == final_value - dv.0` and `success == (margin >= 0)`.
#[derive(Clone, Copy, Debug, PartialEq, Eq, Structural)]
pub struct CheckBreakdown {
    /// The relevant STAT at roll time.
    pub stat_value: i16,
    /// The relevant skill rank at roll time.
    pub skill_value: i16,
    /// Sum of situational modifiers.
    pub modifier_total: i16,
    /// LUCK committed before the roll.
    pub luck_spent: u8,
    /// The critical-aware d10.
    pub d10: CritD10,
    /// The check total.
    pub final_value: i16,
    /// The DV rolled against.
    pub dv: DV,
    /// `margin >= 0`.
    pub success: bool,
    /// `final_value - dv.0`.
    pub margin: i16,
}

/// The check total of the given inputs.
pub open spec fn check_total(
    stat_value: i16,
    skill_value: i16,
    modifier_total: i16,
    luck_spent: u8,
    d10: CritD10,
) -> int {
    stat_value + skill_value + modifier_total + luck_spent + d10.net
}

/// Every partial sum of the check total, and the margin, fit in an `i16`
/// (the arithmetic of [`CheckBreakdown::new`] is done in `i16`, left to right).
pub open spec fn check_fits(
    stat_value: i16,
    skill_value: i16,
    modifier_total: i16,
    luck_spent: u8,
    d10: CritD10,
    dv: DV,
) -> bool {
    let s1 = stat_value + skill_value;
    let s2 = s1 + modifier_total;
    let s3 = s2 + luck_spent;
    let s4 = s3 + d10.net;
    &&& -0x8000 <= s1 && s1 <= 0x7fff
    &&& -0x8000 <= s2 && s2 <= 0x7fff
    &&& -0x8000 <= s3 && s3 <= 0x7fff
    &&& -0x8000 <= s4 && s4 <= 0x7fff
    &&& -0x8000 <= s4 - dv.0
}

impl CheckBreakdown {
    /// The breakdown of a check with the given inputs.
    pub open spec fn spec_new(
        stat_value: i16,
        skill_value: i16,
        modifier_total: i16,
        luck_spent: u8,
        d10: CritD10,
        dv: DV,
    ) -> CheckBreakdown {
        let final_value = check_total(stat_value, skill_value, modifier_total, luck_spent, d10);
        CheckBreakdown {
            stat_value,
            skill_value,
            modifier_total,
            luck_spent,
            d10,
            final_value: final_value as i16,
            dv,
            success: final_value - dv.0 >= 0,
            margin: (final_value - dv.0) as i16,
        }
    }

    /// The three derived fields agree with the inputs.
    pub open spec fn consistent(self) -> bool {
        &&& self.final_value == check_total(
            self.stat_value,
            self.skill_value,
            self.modifier_total,
            self.luck_spent,
            self.d10,
        )
        &&& self.margin == self.final_value - self.dv.0
        &&& self.success == (self.margin >= 0)
    }

    /// Build a breakdown from its raw inputs, deriving `final_value`,
    /// `margin` and `success`.
    pub fn new(
        stat_value: i16,
        skill_value: i16,
        modifier_total: i16,
        luck_spent: u8,
        d10: CritD10,
        dv: DV,
    ) -> (r: Self)
        requires
            check_fits(stat_value, skill_value, modifier_total, luck_spent, d10, dv),
        ensures
            r == Self::spec_new(stat_value, skill_value, modifier_total, luck_spent, d10, dv),
            r.consistent(),
    {
        let s1 = stat_value + skill_value;
        let s2 = s1 + modifier_total;
        let s3 = s2 + luck_spent as i16;
        let final_value = s3 + d10.net;
        let margin = final_value - dv.0 as i16;
        let success = margin >= 0;
        CheckBreakdown {
            stat_value,
            skill_value,
            modifier_total,
            luck_spent,
            d10,
            final_value,
            dv,
            success,
            margin,
        }
    }
}

/// The result of an opposed check: each side's breakdown carries the other
/// side's total (clamped into `0..=255`) as its DV.
#[derive(Clone, Copy, Debug, PartialEq, Eq, Structural)]
pub struct OpposedOutcome {
    pub attacker_breakdown: CheckBreakdown,
    pub defender_breakdown: CheckBreakdown,
    /// Whether the attacker strictly beat the defender.
    pub attacker_wins: bool,
}

/// `v` clamped into `0..=255`.
pub open spec fn spec_saturate_to_u8(v: i16) -> u8 {
    if v < 0 { 0 } else if v > 255 { 255 } else { v as u8 }
}

/// `v` clamped into `0..=255`.
pub fn saturate_to_u8(v: i16) -> (r: u8)
    ensures
        r == spec_saturate_to_u8(v),
{
    if v < 0 {
        0
    } else if v > 255 {
        255
    } else {
        v as u8
    }
}

/// `b` re-aimed at an opponent's total: its DV becomes that total clamped
/// into `0..=255`, its margin follows, and its success is `success`.
pub open spec fn spec_against(b: CheckBreakdown, opponent_total: i16, success: bool) -> CheckBreakdown {
    let dv = DV(spec_saturate_to_u8(opponent_total));
    CheckBreakdown { dv, margin: (b.final_value - dv.0) as i16, success, ..b }
}

/// Re-aim `b` at an opponent's total.
pub fn against(b: CheckBreakdown, opponent_total: i16, success: bool) -> (r: CheckBreakdown)
    requires
        b.final_value - 255 >= i16::MIN,
    ensures
        r == spec_against(b, opponent_total, success),
{
    let dv = DV(saturate_to_u8(opponent_total));
    CheckBreakdown { dv, margin: b.final_value - dv.0 as i16, success, ..b }
}

/// A breakdown built by [`CheckBreakdown::new`] is consistent, and succeeds
/// exactly when the total meets or beats the DV.
pub proof fn lemma_new_consistent(
    stat_value: i16,
    skill_value: i16,
    modifier_total: i16,
    luck_spent: u8,
    d10: CritD10,
    dv: DV,
)
    requires
        check_fits(stat_value, skill_value, modifier_total, luck_spent, d10, dv),
    ensures
        CheckBreakdown::spec_new(stat_value, skill_value, modifier_total, luck_spent, d10, dv).consistent(),
        CheckBreakdown::spec_new(stat_value, skill_value, modifier_total, luck_spent, d10, dv).success
            <==> check_total(stat_value, skill_value, modifier_total, luck_spent, d10) >= dv.0,
{
}

} // verus!

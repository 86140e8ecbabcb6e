//! Dice: the plain d6 and d10, and the d10 with the critical rules that
//! every check uses.
//!
//! Critical rules: a natural 10 is a critical success (roll one more d10
//! and add it); a natural 1 is a critical failure (roll one more d10 and
//! subtract it). The follow-up die never explodes again.

use vstd::prelude::*;
use crate::catalog::{DiceSpec, DieKind};
use crate::rng::{draw_u8_inclusive, draw_usize_below};
use rand_chacha::ChaCha20Rng;

verus! {

/// How a critical-aware d10 came out.
#[derive(Clone, Copy, Debug, PartialEq, Eq, Hash, Structural)]
pub enum D10Outcome {
    /// 2..=9: no follow-up die.
    Normal,
    /// A natural 10: the follow-up die was added.
    CriticalSuccess,
    /// A natural 1: the follow-up die was subtracted.
    CriticalFailure,
}

/// A d10 rolled under the critical rules.
#[derive(Clone, Copy, Debug, PartialEq, Eq, Hash, Structural)]
pub struct CritD10 {
    /// The first die.
    pub base: u8,
    /// The follow-up die, rolled only on a natural 1 or 10.
    pub follow_up: Option<u8>,
    /// Which rule applied.
    pub outcome: D10Outcome,
    /// What the roll contributes to a check.
    pub net: i16,
}

impl CritD10 {
    /// A roll that the critical rules can produce.
    pub open spec fn wf(self) -> bool {
        match self.outcome {
            D10Outcome::Normal => 2 <= self.base <= 9 && self.follow_up is None && self.net
                == self.base as i16,
            D10Outcome::CriticalSuccess => self.base == 10 && (self.follow_up matches Some(f)
                && 1 <= f <= 10 && self.net == 10 + f),
            D10Outcome::CriticalFailure => self.base == 1 && (self.follow_up matches Some(f)
                && 1 <= f <= 10 && self.net == 1 - f),
        }
    }
}

/// The range of what a well-formed critical d10 contributes.
pub proof fn lemma_crit_d10_net_range(d: CritD10)
    requires
        d.wf(),
    ensures
        -9 <= d.net <= 20,
{
}

/// One d10: a value in `1..=10`.
pub fn d10(rng: &mut ChaCha20Rng) -> (r: u8)
    ensures
        1 <= r <= 10,
{
    draw_u8_inclusive(rng, 1, 10)
}

/// One d6: a value in `1..=6`.
pub fn d6(rng: &mut ChaCha20Rng) -> (r: u8)
    ensures
        1 <= r <= 6,
{
    draw_u8_inclusive(rng, 1, 6)
}

/// `n` d6, in the order rolled.
pub fn ndn_d6(n: u8, rng: &mut ChaCha20Rng) -> (rolls: Vec<u8>)
    ensures
        rolls.len() == n,
        forall|i: int| 0 <= i < n ==> 1 <= #[trigger] rolls@[i] <= 6,
        n <= sum_rolls(rolls@) <= 6 * n,
{
    let mut rolls: Vec<u8> = Vec::new();
    let mut k: u8 = 0;
    while k < n
        invariant
            k <= n,
            rolls.len() == k,
            forall|i: int| 0 <= i < k ==> 1 <= #[trigger] rolls@[i] <= 6,
        decreases n - k,
    {
        let r = d6(rng);
        rolls.push(r);
        k = k + 1;
    }
    proof {
        lemma_d6_sum_bounds(rolls@, n);
    }
    rolls
}

/// One d10 under the critical rules.
pub fn d10_with_crits(rng: &mut ChaCha20Rng) -> (r: CritD10)
    ensures
        r.wf(),
{
    let base = d10(rng);
    if base == 10 {
        let f = d10(rng);
        CritD10 {
            base,
            follow_up: Some(f),
            outcome: D10Outcome::CriticalSuccess,
            net: 10 + f as i16,
        }
    } else if base == 1 {
        let f = d10(rng);
        CritD10 {
            base,
            follow_up: Some(f),
            outcome: D10Outcome::CriticalFailure,
            net: 1 - f as i16,
        }
    } else {
        CritD10 { base, follow_up: None, outcome: D10Outcome::Normal, net: base as i16 }
    }
}

/// Pick an index uniformly in `0..count`.
pub(crate) fn pick_index(count: usize, rng: &mut ChaCha20Rng) -> (r: usize)
    requires
        count > 0,
    ensures
        r < count,
{
    draw_usize_below(rng, 0, count)
}

/// The sum of a list of die results.
pub open spec fn sum_rolls(s: Seq<u8>) -> int
    decreases s.len(),
{
    if s.len() == 0 { 0 } else { sum_rolls(s.drop_last()) + s.last() }
}

/// `rolls` could be the results of `n` d6.
pub open spec fn d6_rolls(rolls: Seq<u8>, n: u8) -> bool {
    rolls.len() == n && forall|i: int| 0 <= i < rolls.len() ==> 1 <= #[trigger] rolls[i] <= 6
}

/// `total` is what `n` d6 can add up to: the sum of some `n` results in `1..=6`.
pub open spec fn nd6_total(n: u8, total: int) -> bool {
    exists|rolls: Seq<u8>| d6_rolls(rolls, n) && total == #[trigger] sum_rolls(rolls)
}

/// `n` d6 add up to at least `n` and at most `6 * n`.
pub proof fn lemma_d6_sum_bounds(rolls: Seq<u8>, n: u8)
    requires
        d6_rolls(rolls, n),
    ensures
        n <= sum_rolls(rolls) <= 6 * n,
{
    lemma_d6_sum_bounds_seq(rolls);
}

/// Results each in `1..=6` add up to between their count and six times it.
proof fn lemma_d6_sum_bounds_seq(rolls: Seq<u8>)
    requires
        forall|i: int| 0 <= i < rolls.len() ==> 1 <= #[trigger] rolls[i] <= 6,
    ensures
        rolls.len() <= sum_rolls(rolls) <= 6 * rolls.len(),
    decreases rolls.len(),
{
    if rolls.len() > 0 {
        let front = rolls.drop_last();
        assert forall|i: int| 0 <= i < front.len() implies 1 <= #[trigger] front[i] <= 6 by {
            assert(front[i] == rolls[i]);
        }
        lemma_d6_sum_bounds_seq(front);
        assert(1 <= rolls[rolls.len() - 1] <= 6);
    }
}

/// The sum of at most 255 die results, each at most 10.
pub fn sum_die_rolls(rolls: &Vec<u8>) -> (total: u16)
    requires
        rolls@.len() <= 255,
        forall|i: int| 0 <= i < rolls@.len() ==> #[trigger] rolls@[i] <= 10,
    ensures
        total == sum_rolls(rolls@),
{
    let mut total: u16 = 0;
    let mut i: usize = 0;
    while i < rolls.len()
        invariant
            i <= rolls@.len(),
            rolls@.len() <= 255,
            forall|k: int| 0 <= k < rolls@.len() ==> #[trigger] rolls@[k] <= 10,
            total == sum_rolls(rolls@.take(i as int)),
            total <= 10 * i,
        decreases rolls@.len() - i,
    {
        proof {
            assert(rolls@.take(i + 1).drop_last() =~= rolls@.take(i as int));
        }
        total = total + rolls[i] as u16;
        i = i + 1;
    }
    proof {
        assert(rolls@.take(i as int) =~= rolls@);
    }
    total
}

/// The highest face of a die.
pub open spec fn die_max(kind: DieKind) -> u8 {
    match kind {
        DieKind::D6 => 6,
        DieKind::D10 => 10,
    }
}

/// `rolls` could be the results of rolling `dice`.
pub open spec fn dice_rolls(rolls: Seq<u8>, dice: DiceSpec) -> bool {
    rolls.len() == dice.n && forall|i: int|
        0 <= i < rolls.len() ==> 1 <= #[trigger] rolls[i] <= die_max(dice.die)
}

} // verus!

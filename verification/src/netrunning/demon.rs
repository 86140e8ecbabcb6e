//! Demons defending a NET Architecture.
//!
//! A Demon has Interface, REZ and a fixed NET Action budget from its
//! catalog row; it defends with `Interface + 1d10`. It has no SPD or PER,
//! so it cannot be Slid, and it is always aware of every Netrunner in its
//! Architecture: nothing in its state says otherwise.

use vstd::prelude::*;
use crate::text::push_text;
use crate::catalog::{Catalog, Demon, DemonId};
use crate::dice::d10_with_crits;
use crate::error::RulesError;
use crate::netrunning::abilities::eye_dee::inc_saturating;
use crate::resolution::CheckBreakdown;
use crate::types::{EntityId, DV};
use crate::world::World;
use rand_chacha::ChaCha20Rng;

verus! {

/// Outcome of a Demon's Zap.
#[derive(Clone, Copy, Debug, PartialEq, Eq, Structural)]
pub struct ZapOutcome {
    /// The Demon's `Interface + 1d10` (no STAT, no LUCK), against DV 0.
    pub breakdown: CheckBreakdown,
    /// Whom the Zap was aimed at.
    pub target: EntityId,
    /// Damage dealt; the opposed resolution lives elsewhere, so this is 0.
    pub damage_dealt: u8,
}

/// A Demon at work in an Architecture.
#[derive(Clone, Debug, PartialEq, Eq)]
pub struct DemonState {
    /// Which Demon type this is.
    pub demon_id: DemonId,
    /// Current REZ.
    pub current_rez: u16,
    /// Floor indices of the Control Nodes it holds.
    pub controlled_node_floors: Vec<usize>,
    /// NET Actions spent this Turn.
    pub net_actions_used_this_turn: u8,
    /// Interface rank, copied from the catalog row.
    pub interface_rank: u8,
}

/// The message of a Demon slug missing from the catalog:
/// `demon slug '<slug>' not found in catalog`.
fn missing_demon_message(slug: &String) -> (s: String)
    ensures
        s@ == "demon slug '"@ + slug@ + "' not found in catalog"@,
{
    let mut s = String::new();
    push_text(&mut s, "demon slug '");
    push_text(&mut s, slug.as_str());
    push_text(&mut s, "' not found in catalog");
    proof {
        assert(Seq::<char>::empty() + "demon slug '"@ =~= "demon slug '"@);
    }
    s
}

/// The path label of an in-memory catalog.
fn in_memory_path() -> (s: String)
    ensures
        s@ == "in-memory"@,
{
    String::from_str("in-memory")
}

impl DemonState {
    /// A Demon of type `demon_id` as its catalog row sets it up, holding
    /// `control_nodes`; refused when the slug is not in the catalog.
    pub fn from_template(catalog: &Catalog<Demon>, demon_id: &DemonId, control_nodes: Vec<usize>) -> (r: Result<Self, RulesError>)
        ensures
            match catalog.lookup(demon_id.0@) {
                None => r matches Err(RulesError::CatalogLoadFailed { path, source }) && path@ == "in-memory"@
                    && source@ == "demon slug '"@ + demon_id.0@ + "' not found in catalog"@,
                Some(d) => r matches Ok(s) && {
                    &&& s.demon_id == *demon_id
                    &&& s.current_rez == d.rez
                    &&& s.controlled_node_floors@ == control_nodes@
                    &&& s.net_actions_used_this_turn == 0
                    &&& s.interface_rank == d.interface
                },
            },
    {
        match catalog.get(&demon_id.0) {
            None => Err(RulesError::CatalogLoadFailed {
                path: in_memory_path(),
                source: missing_demon_message(&demon_id.0),
            }),
            Some(demon) => Ok(DemonState {
                demon_id: demon_id.duplicate(),
                current_rez: demon.rez,
                controlled_node_floors: control_nodes,
                net_actions_used_this_turn: 0,
                interface_rank: demon.interface,
            }),
        }
    }

    /// Whether the Demon has a NET Action left this Turn; false when its
    /// type is missing from the catalog.
    pub fn can_take_action(&self, catalog: &Catalog<Demon>) -> (r: bool)
        ensures
            r == match catalog.lookup(self.demon_id.0@) {
                Some(d) => self.net_actions_used_this_turn < d.net_actions_per_turn,
                None => false,
            },
    {
        match catalog.get(&self.demon_id.0) {
            Some(demon) => self.net_actions_used_this_turn < demon.net_actions_per_turn,
            None => false,
        }
    }

    /// Zap `target` in defence: roll `Interface + 1d10` against DV 0 and
    /// spend one NET Action (saturating); the budget is not checked here.
    pub fn defend_with_zap(&mut self, target: EntityId, world: &mut World, rng: &mut ChaCha20Rng) -> (o: ZapOutcome)
        ensures
            o.breakdown.d10.wf(),
            o.breakdown == CheckBreakdown::spec_new(0, old(self).interface_rank as i16, 0, 0, o.breakdown.d10, DV(0)),
            o.target == target,
            o.damage_dealt == 0,
            *final(self) == (DemonState {
                net_actions_used_this_turn: inc_saturating(old(self).net_actions_used_this_turn),
                ..*old(self)
            }),
            *final(world) == *old(world),
    {
        let d10 = d10_with_crits(rng);
        let breakdown = CheckBreakdown::new(0, self.interface_rank as i16, 0, 0, d10, DV(0));
        if self.net_actions_used_this_turn < 255 {
            self.net_actions_used_this_turn = self.net_actions_used_this_turn + 1;
        }
        ZapOutcome { breakdown, target, damage_dealt: 0 }
    }

    /// Start a new Turn: nothing spent.
    pub fn reset_turn(&mut self)
        ensures
            *final(self) == (DemonState { net_actions_used_this_turn: 0, ..*old(self) }),
    {
        self.net_actions_used_this_turn = 0;
    }
}

/// After a new Turn starts, a Demon whose type is in the catalog with a
/// budget of at least one NET Action can act.
pub proof fn lemma_reset_restores_budget(s: DemonState, catalog: Catalog<Demon>)
    requires
        catalog.lookup(s.demon_id.0@) matches Some(d) && d.net_actions_per_turn > 0,
    ensures
        (DemonState { net_actions_used_this_turn: 0, ..s }).net_actions_used_this_turn
            < catalog.lookup(s.demon_id.0@).unwrap().net_actions_per_turn,
{
}

} // verus!

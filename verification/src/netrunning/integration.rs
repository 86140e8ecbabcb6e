//! Netrunning and the combat queue: the Meat-or-NET choice of a Turn, safe
//! and unsafe jack-out, and Black ICE entering the initiative queue.
//!
//! On both jack-out paths the held Control Nodes are released, the queued
//! Viruses are handed back for installation, and the netrun ends. On an
//! unsafe jack-out every Black ICE still in combat applies its effect.

use vstd::prelude::*;
use crate::catalog::BlackIceId;
use crate::combat::{max_score, CombatState, InitiativeEntry};
use crate::error::RulesError;
use crate::netrunning::architecture::{BlackIceState, Floor};
use crate::netrunning::state::Virus;
use crate::types::EntityId;
use crate::world::{same_characters, World};
use rand_chacha::ChaCha20Rng;

verus! {

/// What a Netrunner does with their Turn.
#[derive(Clone, Copy, Debug, PartialEq, Eq, Hash, Structural)]
pub enum NetrunnerActionChoice {
    /// A Meat Action.
    Meat,
    /// As many NET Actions as Interface allows.
    Net,
    /// A safe jack-out.
    JackOut,
}

/// One effect applied by a Black ICE still in combat on an unsafe jack-out.
#[derive(Clone, Debug, PartialEq, Eq)]
pub struct UnsafeJackoutEffect {
    /// The Black ICE that applies it.
    pub from_ice: BlackIceId,
    /// Label of the effect (a placeholder until ICE effects are resolved here).
    pub kind: String,
    /// Damage to the Netrunner (0 until ICE effects are resolved here).
    pub damage_to_netrunner: u16,
}

/// What a jack-out hands back.
#[derive(Clone, Debug, PartialEq, Eq)]
pub struct JackOutOutcome {
    /// The Viruses that were queued, in queue order.
    pub viruses_applied: Vec<Virus>,
    /// The Control Nodes that were held, in the order taken.
    pub control_nodes_released: Vec<usize>,
    /// The effects of Black ICE still in combat (unsafe jack-out only).
    pub unsafe_jackout_consequences: Vec<UnsafeJackoutEffect>,
}

/// The templates of the Black ICE floors that are in combat, in floor order.
pub open spec fn in_combat_ice(floors: Seq<Floor>) -> Seq<BlackIceId>
    decreases floors.len(),
{
    if floors.len() == 0 {
        Seq::empty()
    } else {
        let rest = in_combat_ice(floors.drop_last());
        match floors.last() {
            Floor::BlackIce { template, state: BlackIceState::InCombat, .. } => rest.push(template),
            _ => rest,
        }
    }
}

/// `f` is a Black ICE floor in combat with template `t`.
pub open spec fn fighting_ice(f: Floor, t: BlackIceId) -> bool {
    f matches Floor::BlackIce { template, state: BlackIceState::InCombat, .. } && template == t
}

/// Some floor of `floors` is a Black ICE in combat with template `t`.
pub open spec fn has_fighting_ice(floors: Seq<Floor>, t: BlackIceId) -> bool {
    exists|j: int| 0 <= j < floors.len() && #[trigger] fighting_ice(floors[j], t)
}

/// Only Black ICE that is in combat answers an unsafe jack-out: each
/// template listed comes from a Black ICE floor in combat, and a netrun with
/// no such floor lists none.
pub proof fn lemma_in_combat_ice_members(floors: Seq<Floor>)
    ensures
        in_combat_ice(floors).len() <= floors.len(),
        forall|i: int|
            0 <= i < in_combat_ice(floors).len() ==> has_fighting_ice(floors, #[trigger] in_combat_ice(floors)[i]),
        (forall|j: int, t: BlackIceId| 0 <= j < floors.len() ==> !#[trigger] fighting_ice(floors[j], t))
            ==> in_combat_ice(floors).len() == 0,
    decreases floors.len(),
{
    if floors.len() > 0 {
        let front = floors.drop_last();
        let last = floors.len() - 1;
        lemma_in_combat_ice_members(front);
        assert(floors[last] == floors.last());
        assert forall|i: int| 0 <= i < in_combat_ice(floors).len() implies has_fighting_ice(
            floors,
            #[trigger] in_combat_ice(floors)[i],
        ) by {
            if i < in_combat_ice(front).len() {
                let t = in_combat_ice(front)[i];
                assert(has_fighting_ice(front, t));
                let j = choose|j: int| 0 <= j < front.len() && #[trigger] fighting_ice(front[j], t);
                assert(floors[j] == front[j]);
                assert(in_combat_ice(floors)[i] == t);
                assert(fighting_ice(floors[j], t));
            } else {
                assert(fighting_ice(floors[last], in_combat_ice(floors)[i]));
            }
        }
        if forall|j: int, t: BlackIceId| 0 <= j < floors.len() ==> !#[trigger] fighting_ice(floors[j], t) {
            assert forall|j: int, t: BlackIceId| 0 <= j < front.len() implies !#[trigger] fighting_ice(front[j], t) by {
                assert(front[j] == floors[j]);
                assert(!fighting_ice(floors[j], t));
            }
            match floors.last() {
                Floor::BlackIce { template, state: BlackIceState::InCombat, .. } => {
                    assert(fighting_ice(floors[last], template));
                },
                _ => {},
            }
        }
    }
}

/// A copy of a list of floor indices.
fn copy_indices(v: &Vec<usize>) -> (r: Vec<usize>)
    ensures
        r@ == v@,
{
    let mut r: Vec<usize> = Vec::new();
    let mut i: usize = 0;
    while i < v.len()
        invariant
            i <= v@.len(),
            r@ == v@.take(i as int),
        decreases v@.len() - i,
    {
        r.push(v[i]);
        proof {
            assert(v@.take(i + 1) =~= v@.take(i as int).push(v@[i as int]));
        }
        i = i + 1;
    }
    proof {
        assert(v@.take(i as int) =~= v@);
    }
    r
}

/// Safe jack-out: release the held Control Nodes, hand back the queued
/// Viruses, and end the netrun; no Black ICE effect applies.
pub fn safe_jack_out(world: &mut World) -> (r: Result<JackOutOutcome, RulesError>)
    ensures
        old(world).netrun is None ==> r == Err::<JackOutOutcome, RulesError>(RulesError::NoActiveNetrun)
            && *final(world) == *old(world),
        old(world).netrun matches Some(nr) ==> (r matches Ok(o) && {
            &&& o.viruses_applied@ == nr.queued_viruses@
            &&& o.control_nodes_released@ == nr.controlled_nodes@
            &&& o.unsafe_jackout_consequences@.len() == 0
            &&& final(world).netrun is None
            &&& same_characters(*old(world), *final(world))
            &&& final(world).combat == old(world).combat
        }),
{
    let (viruses_applied, control_nodes_released) = match world.netrun.as_mut() {
        None => { return Err(RulesError::NoActiveNetrun); },
        Some(netrun) => {
            let viruses = netrun.drain_viruses_for_jackout();
            let nodes = copy_indices(&netrun.controlled_nodes);
            netrun.release_all_control_nodes();
            (viruses, nodes)
        },
    };
    world.netrun = None;
    Ok(JackOutOutcome { viruses_applied, control_nodes_released, unsafe_jackout_consequences: Vec::new() })
}

/// The placeholder label of an unsafe jack-out effect.
fn placeholder_kind() -> (s: String)
    ensures
        s@ == "ice_effect_placeholder"@,
{
    String::from_str("ice_effect_placeholder")
}

/// Unsafe jack-out: as a safe jack-out, and in addition every Black ICE
/// floor of the netrun that is in combat applies its effect (in floor order).
pub fn unsafe_jack_out(world: &mut World) -> (r: Result<JackOutOutcome, RulesError>)
    ensures
        old(world).netrun is None ==> r == Err::<JackOutOutcome, RulesError>(RulesError::NoActiveNetrun)
            && *final(world) == *old(world),
        old(world).netrun matches Some(nr) ==> (r matches Ok(o) && {
            &&& o.viruses_applied@ == nr.queued_viruses@
            &&& o.control_nodes_released@ == nr.controlled_nodes@
            &&& o.unsafe_jackout_consequences@.len() == in_combat_ice(nr.floors@).len()
            &&& forall|i: int|
                0 <= i < o.unsafe_jackout_consequences@.len() ==> {
                    &&& (#[trigger] o.unsafe_jackout_consequences@[i]).from_ice == in_combat_ice(nr.floors@)[i]
                    &&& o.unsafe_jackout_consequences@[i].kind@ == "ice_effect_placeholder"@
                    &&& o.unsafe_jackout_consequences@[i].damage_to_netrunner == 0
                }
            &&& final(world).netrun is None
            &&& same_characters(*old(world), *final(world))
            &&& final(world).combat == old(world).combat
        }),
{
    let (consequences, viruses_applied, control_nodes_released) = match world.netrun.as_mut() {
        None => { return Err(RulesError::NoActiveNetrun); },
        Some(netrun) => {
            let mut consequences: Vec<UnsafeJackoutEffect> = Vec::new();
            let mut i: usize = 0;
            while i < netrun.floors.len()
                invariant
                    i <= netrun.floors@.len(),
                    consequences@.len() == in_combat_ice(netrun.floors@.take(i as int)).len(),
                    forall|k: int|
                        0 <= k < consequences@.len() ==> {
                            &&& (#[trigger] consequences@[k]).from_ice == in_combat_ice(netrun.floors@.take(i as int))[k]
                            &&& consequences@[k].kind@ == "ice_effect_placeholder"@
                            &&& consequences@[k].damage_to_netrunner == 0
                        },
                decreases netrun.floors@.len() - i,
            {
                proof {
                    assert(netrun.floors@.take(i + 1).drop_last() =~= netrun.floors@.take(i as int));
                }
                match &netrun.floors[i] {
                    Floor::BlackIce { template, state: BlackIceState::InCombat, .. } => {
                        consequences.push(
                            UnsafeJackoutEffect {
                                from_ice: template.duplicate(),
                                kind: placeholder_kind(),
                                damage_to_netrunner: 0,
                            },
                        );
                    },
                    _ => {},
                }
                i = i + 1;
            }
            proof {
                assert(netrun.floors@.take(i as int) =~= netrun.floors@);
            }
            let viruses = netrun.drain_viruses_for_jackout();
            let nodes = copy_indices(&netrun.controlled_nodes);
            netrun.release_all_control_nodes();
            (consequences, viruses, nodes)
        },
    };
    world.netrun = None;
    Ok(JackOutOutcome { viruses_applied, control_nodes_released, unsafe_jackout_consequences: consequences })
}

/// Magic high bits of the entity id of a Black ICE (`BKIC`).
pub const BLACK_ICE_MAGIC: u128 = 0x0000_424B_4943_0000_0000_0000_0000_0000u128;

/// The entity id of the Black ICE on floor `ice_floor_index`.
pub open spec fn spec_ice_entity(ice_floor_index: usize) -> EntityId {
    EntityId(BLACK_ICE_MAGIC | (ice_floor_index as u128))
}

/// Put the Black ICE of floor `ice_floor_index` at the top of the
/// initiative queue, one above the highest score, under the entity id
/// minted from the floor index. A combat must be in progress.
pub fn insert_ice_in_queue(world: &mut World, ice_floor_index: usize, rng: &mut ChaCha20Rng)
    requires
        old(world).combat is Some,
        max_score(old(world).combat.unwrap().queue@) < i16::MAX,
    ensures
        final(world).combat matches Some(c) && {
            let c0 = old(world).combat.unwrap();
            let e = spec_ice_entity(ice_floor_index);
            &&& c.queue@ == c0.queue@.insert(0, InitiativeEntry { entity: e, score: (max_score(c0.queue@) + 1) as i16 })
            &&& c.participants@.contains(e)
            &&& forall|p: EntityId| c0.participants@.contains(p) ==> c.participants@.contains(p)
        },
        final(world).netrun == old(world).netrun,
        same_characters(*old(world), *final(world)),
{
    let entity_id = EntityId(BLACK_ICE_MAGIC | ice_floor_index as u128);
    match world.combat.as_mut() {
        Some(combat) => {
            let ghost before = combat.participants@;
            combat.insert_at_top(entity_id);
            proof {
                if before.contains(entity_id) {
                } else {
                    assert(combat.participants@.last() == entity_id);
                    assert forall|p: EntityId| before.contains(p) implies combat.participants@.contains(p) by {
                        let k = choose|k: int| 0 <= k < before.len() && before[k] == p;
                        assert(combat.participants@[k] == p);
                    }
                }
            }
        },
        None => {},
    }
}

} // verus!

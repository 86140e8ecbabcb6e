//! The initiative queue of a combat in progress.

use vstd::prelude::*;
use crate::dice::d10;
use crate::types::EntityId;
use crate::world::World;
use rand_chacha::ChaCha20Rng;

verus! {

/// One place in the initiative queue.
#[derive(Clone, Copy, Debug, PartialEq, Eq, Structural)]
pub struct InitiativeEntry {
    pub entity: EntityId,
    pub score: i16,
}

/// The queue is ordered from the highest score to the lowest.
pub open spec fn queue_sorted(q: Seq<InitiativeEntry>) -> bool {
    forall|i: int, j: int| 0 <= i < j < q.len() ==> (#[trigger] q[i]).score >= (#[trigger] q[j]).score
}

/// The highest score of the queue, or 0 for an empty queue.
pub open spec fn max_score(q: Seq<InitiativeEntry>) -> int
    decreases q.len(),
{
    if q.len() == 0 {
        0
    } else {
        let rest = max_score(q.drop_last());
        if q.len() == 1 || q.last().score > rest {
            q.last().score as int
        } else {
            rest
        }
    }
}

/// What an entity adds to its initiative die: its REF, or 0 when it is not
/// a character of `world`.
pub open spec fn initiative_base(world: World, e: EntityId) -> int {
    match world.spec_entity(e) {
        Some(c) => c.stats.refl as int,
        None => 0,
    }
}

/// Each entry scored its initiative base plus a d10.
pub open spec fn scores_rolled(world: World, q: Seq<InitiativeEntry>) -> bool {
    forall|i: int|
        0 <= i < q.len() ==> initiative_base(world, (#[trigger] q[i]).entity) + 1 <= q[i].score
            <= initiative_base(world, q[i].entity) + 10
}

/// The entities of the queue, in queue order.
pub open spec fn queue_entities(q: Seq<InitiativeEntry>) -> Seq<EntityId> {
    q.map_values(|e: InitiativeEntry| e.entity)
}

/// A combat in progress.
#[derive(Clone, Debug, PartialEq, Eq)]
pub struct CombatState {
    /// Who acts, highest score first.
    pub queue: Vec<InitiativeEntry>,
    /// Everyone taking part.
    pub participants: Vec<EntityId>,
}

impl CombatState {
    /// Start a combat: each entity rolls REF + 1d10 (REF counts 0 for an
    /// entity that is not a character of `world`) and is queued once for
    /// each time it is listed; the queue is ordered from the highest score
    /// down, earlier entities first on ties.
    pub fn start(entities: Vec<EntityId>, world: &World, rng: &mut ChaCha20Rng) -> (c: CombatState)
        ensures
            c.queue@.len() == entities@.len(),
            c.participants@ == entities@,
            queue_sorted(c.queue@),
            forall|i: int| 0 <= i < c.queue@.len() ==> entities@.contains(#[trigger] c.queue@[i].entity),
            scores_rolled(*world, c.queue@),
            queue_entities(c.queue@).to_multiset() == entities@.to_multiset(),
    {
        let mut queue: Vec<InitiativeEntry> = Vec::new();
        let mut k: usize = 0;
        proof {
            assert(queue_entities(queue@) =~= entities@.take(0));
        }
        while k < entities.len()
            invariant
                k <= entities@.len(),
                queue@.len() == k,
                queue_sorted(queue@),
                forall|i: int| 0 <= i < queue@.len() ==> entities@.contains(#[trigger] queue@[i].entity),
                scores_rolled(*world, queue@),
                queue_entities(queue@).to_multiset() == entities@.take(k as int).to_multiset(),
            decreases entities@.len() - k,
        {
            let e = entities[k];
            let refl: i16 = match world.entity(e) {
                Some(c) => c.stats.refl as i16,
                None => 0,
            };
            let score = refl + d10(rng) as i16;
            let mut p: usize = 0;
            while p < queue.len() && queue[p].score >= score
                invariant
                    p <= queue@.len(),
                    forall|i: int| 0 <= i < p ==> (#[trigger] queue@[i]).score >= score,
                decreases queue@.len() - p,
            {
                p = p + 1;
            }
            let ghost before = queue@;
            queue.insert(p, InitiativeEntry { entity: e, score });
            proof {
                assert(queue_entities(queue@) =~= queue_entities(before).insert(p as int, e));
                vstd::seq_lib::to_multiset_insert(queue_entities(before), p as int, e);
                assert(entities@.take(k + 1) =~= entities@.take(k as int).push(e));
                vstd::seq_lib::to_multiset_build(entities@.take(k as int), e);
                assert(entities@[k as int] == e);
                assert forall|i: int, j: int|
                    0 <= i < j < queue@.len() implies (#[trigger] queue@[i]).score >= (
                    #[trigger] queue@[j]).score by {
                    if j < p {
                        assert(queue@[i] == before[i] && queue@[j] == before[j]);
                    } else if j == p {
                        assert(queue@[i] == before[i]);
                    } else if i < p {
                        assert(queue@[i] == before[i] && queue@[j] == before[j - 1]);
                        if p < before.len() {
                            assert(before[p as int].score < score);
                        }
                    } else if i == p {
                        assert(queue@[j] == before[j - 1]);
                        assert(before[p as int].score < score);
                        assert(before[p as int].score >= before[j - 1].score || p == j - 1);
                    } else {
                        assert(queue@[i] == before[i - 1] && queue@[j] == before[j - 1]);
                    }
                }
                assert forall|i: int| 0 <= i < queue@.len() implies entities@.contains(
                    #[trigger] queue@[i].entity,
                ) by {
                    if i < p {
                        assert(queue@[i] == before[i]);
                    } else if i > p {
                        assert(queue@[i] == before[i - 1]);
                    }
                }
                assert forall|i: int| 0 <= i < queue@.len() implies initiative_base(
                    *world,
                    (#[trigger] queue@[i]).entity,
                ) + 1 <= queue@[i].score <= initiative_base(*world, queue@[i].entity) + 10 by {
                    if i < p {
                        assert(queue@[i] == before[i]);
                    } else if i > p {
                        assert(queue@[i] == before[i - 1]);
                    }
                }
            }
            k = k + 1;
        }
        proof {
            assert(entities@.take(k as int) =~= entities@);
        }
        CombatState { queue, participants: entities }
    }

    /// Put `entity` at the top of the queue, one point above the highest
    /// score so far (score 1 in an empty queue), and add it to the
    /// participants if it is not one yet.
    pub fn insert_at_top(&mut self, entity: EntityId)
        requires
            max_score(old(self).queue@) < i16::MAX,
        ensures
            final(self).queue@ == old(self).queue@.insert(
                0,
                InitiativeEntry { entity, score: (max_score(old(self).queue@) + 1) as i16 },
            ),
            old(self).participants@.contains(entity) ==> final(self).participants@ == old(
                self,
            ).participants@,
            !old(self).participants@.contains(entity) ==> final(self).participants@ == old(
                self,
            ).participants@.push(entity),
    {
        let mut top: i16 = 0;
        let mut i: usize = 0;
        while i < self.queue.len()
            invariant
                i <= self.queue@.len(),
                top == max_score(self.queue@.take(i as int)),
                self.queue@ == old(self).queue@,
            decreases self.queue@.len() - i,
        {
            proof {
                assert(self.queue@.take(i + 1).drop_last() =~= self.queue@.take(i as int));
            }
            if i == 0 || self.queue[i].score > top {
                top = self.queue[i].score;
            }
            i = i + 1;
        }
        proof {
            assert(self.queue@.take(i as int) =~= self.queue@);
        }
        self.queue.insert(0, InitiativeEntry { entity, score: top + 1 });
        let mut found = false;
        let mut j: usize = 0;
        while j < self.participants.len()
            invariant
                j <= self.participants@.len(),
                self.participants@ == old(self).participants@,
                found == exists|t: int| 0 <= t < j && self.participants@[t] == entity,
            decreases self.participants@.len() - j,
        {
            if self.participants[j] == entity {
                found = true;
            }
            j = j + 1;
        }
        if !found {
            self.participants.push(entity);
        }
    }
}

/// No entry of the queue scores above [`max_score`].
pub proof fn lemma_max_score_bounds(q: Seq<InitiativeEntry>)
    ensures
        forall|i: int| 0 <= i < q.len() ==> (#[trigger] q[i]).score <= max_score(q),
    decreases q.len(),
{
    if q.len() > 0 {
        lemma_max_score_bounds(q.drop_last());
        assert forall|i: int| 0 <= i < q.len() implies (#[trigger] q[i]).score <= max_score(q) by {
            if i < q.len() - 1 {
                assert(q[i] == q.drop_last()[i]);
            }
        }
    }
}

/// Putting an entity at the top, as [`CombatState::insert_at_top`] does,
/// keeps an ordered queue ordered, and the newcomer acts strictly before
/// everyone already queued.
pub proof fn lemma_insert_at_top_keeps_order(q: Seq<InitiativeEntry>, entity: EntityId)
    requires
        queue_sorted(q),
        max_score(q) < i16::MAX,
    ensures
        ({
            let top = InitiativeEntry { entity, score: (max_score(q) + 1) as i16 };
            &&& queue_sorted(q.insert(0, top))
            &&& forall|i: int| 0 <= i < q.len() ==> (#[trigger] q[i]).score < top.score
        }),
{
    lemma_max_score_bounds(q);
    let top = InitiativeEntry { entity, score: (max_score(q) + 1) as i16 };
    let r = q.insert(0, top);
    assert forall|i: int, j: int| 0 <= i < j < r.len() implies (#[trigger] r[i]).score >= (
    #[trigger] r[j]).score by {
        assert(r[j] == q[j - 1]);
        if i > 0 {
            assert(r[i] == q[i - 1]);
        }
    }
}

} // verus!

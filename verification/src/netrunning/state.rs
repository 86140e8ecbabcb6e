//! The state of a netrun in progress: which floor the Netrunner is on,
//! what is revealed, rezzed, held and queued, and the NET Action budget.
//!
//! Program instance ids are minted deterministically from a counter:
//! `0x0000_5250_474D_0000_0000_0000_0000_0000 | counter` (the magic bytes
//! spell `RPGM`), so no OS entropy is needed.

use vstd::prelude::*;
use crate::effects::ProgramId;
use crate::netrunning::architecture::{Floor, NetArchId};
use crate::types::{EntityId, DV};

verus! {

/// The magic high bits of a program instance id.
pub const PROGRAM_INSTANCE_MAGIC: u128 = 0x0000_5250_474D_0000_0000_0000_0000_0000u128;

/// The id minted from `counter`.
pub open spec fn spec_instance_bits(counter: u64) -> u128 {
    PROGRAM_INSTANCE_MAGIC | (counter as u128)
}

/// Different counters mint different ids, and equal counters equal ids.
pub proof fn lemma_instance_bits_injective(a: u64, b: u64)
    ensures
        (spec_instance_bits(a) == spec_instance_bits(b)) <==> (a == b),
{
    let m: u128 = PROGRAM_INSTANCE_MAGIC;
    assert(m == 0x0000_5250_474D_0000_0000_0000_0000_0000u128);
    assert((m | (a as u128)) == (m | (b as u128)) <==> a == b) by (bit_vector)
        requires
            m == 0x0000_5250_474D_0000_0000_0000_0000_0000u128,
    ;
}

/// Identifier of one rezzed instance of a program (the bits of a UUID).
#[derive(Clone, Copy, Debug, PartialEq, Eq, Hash, Structural)]
pub struct ProgramInstanceId(pub u128);

impl ProgramInstanceId {
    /// Mint the instance id of `counter`.
    pub fn from_counter(counter: u64) -> (r: ProgramInstanceId)
        ensures
            r.0 == spec_instance_bits(counter),
    {
        ProgramInstanceId(PROGRAM_INSTANCE_MAGIC | counter as u128)
    }
}

/// One rezzed program.
#[derive(Clone, Debug, PartialEq, Eq)]
pub struct RezzedProgram {
    pub instance_id: ProgramInstanceId,
    pub program: ProgramId,
    /// Current REZ (hit points).
    pub current_rez: u8,
}

impl RezzedProgram {
    /// A copy of this entry.
    pub fn duplicate(&self) -> (r: RezzedProgram)
        ensures
            r == *self,
    {
        RezzedProgram {
            instance_id: self.instance_id,
            program: self.program.duplicate(),
            current_rez: self.current_rez,
        }
    }
}

/// A Virus queued to stay in the Architecture after jack-out.
#[derive(Clone, Debug, PartialEq, Eq)]
pub struct Virus {
    pub description: String,
    pub effect: VirusEffect,
    /// DV of the Interface check that installs it.
    pub dv_to_install: DV,
    /// NET Actions the installation costs.
    pub net_actions_to_install: u8,
}

/// What a Virus does to the Architecture.
#[derive(Clone, Debug, PartialEq, Eq)]
pub enum VirusEffect {
    AlterIcon(String),
    DeactivateIce(String),
    MalfunctionNode(usize),
    Custom(String),
}

impl VirusEffect {
    /// A copy of this effect.
    pub fn duplicate(&self) -> (r: VirusEffect)
        ensures
            r == *self,
    {
        match self {
            VirusEffect::AlterIcon(s) => VirusEffect::AlterIcon(s.clone()),
            VirusEffect::DeactivateIce(s) => VirusEffect::DeactivateIce(s.clone()),
            VirusEffect::MalfunctionNode(n) => VirusEffect::MalfunctionNode(*n),
            VirusEffect::Custom(s) => VirusEffect::Custom(s.clone()),
        }
    }
}

impl Virus {
    /// A copy of this Virus.
    pub fn duplicate(&self) -> (r: Virus)
        ensures
            r == *self,
    {
        Virus {
            description: self.description.clone(),
            effect: self.effect.duplicate(),
            dv_to_install: self.dv_to_install,
            net_actions_to_install: self.net_actions_to_install,
        }
    }
}

/// The NET Actions table (p.197) as used by the netrun state.
pub open spec fn spec_net_actions_for_rank(rank: u8) -> u8 {
    if rank <= 3 {
        2
    } else if rank <= 6 {
        3
    } else if rank <= 9 {
        4
    } else {
        5
    }
}

/// Interface rank to NET Actions per Turn.
pub fn net_actions_for_rank(rank: u8) -> (n: u8)
    ensures
        n == spec_net_actions_for_rank(rank),
{
    if rank <= 3 {
        2
    } else if rank <= 6 {
        3
    } else if rank <= 9 {
        4
    } else {
        5
    }
}

/// The table of the netrun state and the public NET Actions table agree.
pub proof fn lemma_rank_tables_agree(rank: u8)
    ensures
        spec_net_actions_for_rank(rank) == crate::netrunning::actions::spec_net_actions(rank),
{
}

/// `i` is the first position of `s` holding a program with instance `id`.
pub open spec fn first_instance_index(s: Seq<RezzedProgram>, id: ProgramInstanceId, i: int) -> bool {
    &&& 0 <= i < s.len()
    &&& s[i].instance_id == id
    &&& forall|j: int| 0 <= j < i ==> (#[trigger] s[j]).instance_id != id
}

/// `new` is `old` with the first rezzed program carrying `id` removed, the
/// last program taking its place.
pub open spec fn derezzed(old: NetrunState, new: NetrunState, id: ProgramInstanceId) -> bool {
    &&& exists|i: int|
        #[trigger] first_instance_index(old.rezzed_programs@, id, i) && new.rezzed_programs@
            == old.rezzed_programs@.update(i, old.rezzed_programs@.last()).drop_last()
    &&& new == NetrunState { rezzed_programs: new.rezzed_programs, ..old }
}

/// `s` without the programs whose instance id is `id`, in the same order.
pub open spec fn without_instance(s: Seq<RezzedProgram>, id: ProgramInstanceId) -> Seq<RezzedProgram>
    decreases s.len(),
{
    if s.len() == 0 {
        s
    } else {
        let rest = without_instance(s.drop_last(), id);
        if s.last().instance_id == id {
            rest
        } else {
            rest.push(s.last())
        }
    }
}

/// Everything about a netrun in progress.
#[derive(Clone, Debug, PartialEq, Eq)]
pub struct NetrunState {
    /// The Netrunner who is jacked in.
    pub netrunner: EntityId,
    /// The Architecture being run.
    pub architecture: NetArchId,
    /// The floor the Netrunner is on; 0 is the Lobby.
    pub current_floor: usize,
    /// How many floors, counted from the Lobby, are known.
    pub revealed_floors: usize,
    /// The floors of the Architecture as the netrun sees them.
    pub floors: Vec<Floor>,
    /// Programs rezzed in this Architecture.
    pub rezzed_programs: Vec<RezzedProgram>,
    /// Floor indices of the Control Nodes the Netrunner holds.
    pub controlled_nodes: Vec<usize>,
    /// Viruses to leave behind on jack-out.
    pub queued_viruses: Vec<Virus>,
    /// DV a hostile Pathfinder must beat to see through the Cloak, if any.
    pub cloak_dv: Option<DV>,
    /// NET Actions spent this Turn.
    pub net_actions_used_this_turn: u8,
    /// NET Actions available this Turn.
    pub net_actions_max_this_turn: u8,
    /// Whether Slide was already attempted this Turn.
    pub slide_used_this_turn: bool,
    /// Counter from which program instance ids are minted; only
    /// [`NetrunState::rez_program`] advances it.
    pub program_id_counter: u64,
}

impl NetrunState {
    /// The counter from which program instance ids are minted.
    pub open spec fn counter(&self) -> u64 {
        self.program_id_counter
    }

    /// Every rezzed program carries an id minted from a counter value in
    /// `1..=counter()`, and no two carry the same id.
    pub open spec fn ids_fresh(&self) -> bool {
        &&& forall|i: int|
            0 <= i < self.rezzed_programs@.len() ==> exists|k: u64|
                1 <= k <= self.counter() && (#[trigger] self.rezzed_programs@[i]).instance_id.0
                    == spec_instance_bits(k)
        &&& forall|i: int, j: int|
            0 <= i < j < self.rezzed_programs@.len() ==> (#[trigger] self.rezzed_programs@[i]).instance_id
                != (#[trigger] self.rezzed_programs@[j]).instance_id
    }

    /// The same state with the NET Action counter at `used`.
    pub open spec fn with_actions_used(self, used: u8) -> NetrunState {
        NetrunState { net_actions_used_this_turn: used, ..self }
    }

    /// NET Actions left this Turn.
    pub open spec fn actions_left(&self) -> int {
        if self.net_actions_used_this_turn <= self.net_actions_max_this_turn {
            self.net_actions_max_this_turn - self.net_actions_used_this_turn
        } else {
            0
        }
    }

    /// Begin a netrun: Lobby, one floor revealed, nothing rezzed, held or
    /// queued, no Cloak, and the NET Action budget of `interface_rank`.
    pub fn start(netrunner: EntityId, architecture: NetArchId, interface_rank: u8) -> (s: Self)
        ensures
            s.netrunner == netrunner,
            s.architecture == architecture,
            s.current_floor == 0,
            s.revealed_floors == 1,
            s.floors@.len() == 0,
            s.rezzed_programs@.len() == 0,
            s.controlled_nodes@.len() == 0,
            s.queued_viruses@.len() == 0,
            s.cloak_dv is None,
            s.net_actions_used_this_turn == 0,
            s.net_actions_max_this_turn == spec_net_actions_for_rank(interface_rank),
            !s.slide_used_this_turn,
            s.counter() == 0,
            s.ids_fresh(),
    {
        NetrunState {
            netrunner,
            architecture,
            current_floor: 0,
            revealed_floors: 1,
            floors: Vec::new(),
            rezzed_programs: Vec::new(),
            controlled_nodes: Vec::new(),
            queued_viruses: Vec::new(),
            cloak_dv: None,
            net_actions_used_this_turn: 0,
            net_actions_max_this_turn: net_actions_for_rank(interface_rank),
            slide_used_this_turn: false,
            program_id_counter: 0,
        }
    }

    /// Whether a revealed floor lies below the current one.
    pub fn can_advance_floor(&self) -> (r: bool)
        ensures
            r == (self.current_floor + 1 < self.revealed_floors),
    {
        let deepest = if self.revealed_floors == 0 {
            0
        } else {
            self.revealed_floors - 1
        };
        self.current_floor < deepest
    }

    /// Rez a program with `max_rez` REZ; returns its fresh instance id.
    pub fn rez_program(&mut self, program: ProgramId, max_rez: u8) -> (id: ProgramInstanceId)
        requires
            old(self).counter() < u64::MAX,
        ensures
            final(self).counter() == old(self).counter() + 1,
            id.0 == spec_instance_bits(final(self).counter()),
            final(self).rezzed_programs@ == old(self).rezzed_programs@.push(
                RezzedProgram { instance_id: id, program, current_rez: max_rez },
            ),
            final(self).rezzed_programs@ =~= final(self).rezzed_programs@,
            *final(self) == (NetrunState {
                rezzed_programs: final(self).rezzed_programs,
                program_id_counter: final(self).counter(),
                ..*old(self)
            }),
            old(self).ids_fresh() ==> final(self).ids_fresh(),
            old(self).ids_fresh() ==> forall|i: int|
                0 <= i < old(self).rezzed_programs@.len() ==> (#[trigger] old(
                    self,
                ).rezzed_programs@[i]).instance_id != id,
    {
        let ghost before = self.rezzed_programs@;
        self.program_id_counter = self.program_id_counter + 1;
        let instance_id = ProgramInstanceId::from_counter(self.program_id_counter);
        self.rezzed_programs.push(
            RezzedProgram { instance_id, program, current_rez: max_rez },
        );
        proof {
            let c = self.program_id_counter;
            if old(self).ids_fresh() {
                assert forall|i: int| 0 <= i < before.len() implies (#[trigger] before[i]).instance_id
                    != instance_id by {
                    let k = choose|k: u64|
                        1 <= k <= old(self).counter() && before[i].instance_id.0
                            == spec_instance_bits(k);
                    lemma_instance_bits_injective(k, c);
                }
                assert forall|i: int|
                    0 <= i < self.rezzed_programs@.len() implies exists|k: u64|
                        1 <= k <= self.counter() && (#[trigger] self.rezzed_programs@[i]).instance_id.0
                            == spec_instance_bits(k) by {
                    if i < before.len() {
                        let k = choose|k: u64|
                            1 <= k <= old(self).counter() && before[i].instance_id.0
                                == spec_instance_bits(k);
                        assert(self.rezzed_programs@[i] == before[i]);
                        assert(1 <= k <= self.counter());
                    } else {
                        assert(self.rezzed_programs@[i].instance_id.0 == spec_instance_bits(c));
                    }
                }
            }
        }
        instance_id
    }

    /// Remove the rezzed program with instance id `instance` and return it,
    /// or return `None` when no such program is rezzed.
    ///
    /// The last program takes the place of the removed one.
    pub fn derez_program(&mut self, instance: ProgramInstanceId) -> (r: Option<RezzedProgram>)
        ensures
            match r {
                Some(p) => exists|i: int|
                    #![trigger old(self).rezzed_programs@[i]]
                    first_instance_index(old(self).rezzed_programs@, instance, i) && p
                        == old(self).rezzed_programs@[i] && final(self).rezzed_programs@ == old(
                        self,
                    ).rezzed_programs@.update(i, old(self).rezzed_programs@.last()).drop_last(),
                None => (forall|j: int|
                    0 <= j < old(self).rezzed_programs@.len() ==> (#[trigger] old(
                        self,
                    ).rezzed_programs@[j]).instance_id != instance) && final(self).rezzed_programs@
                    == old(self).rezzed_programs@,
            },
            *final(self) == (NetrunState { rezzed_programs: final(self).rezzed_programs, ..*old(self) }),
            old(self).ids_fresh() ==> final(self).ids_fresh(),
    {
        let mut i: usize = 0;
        while i < self.rezzed_programs.len()
            invariant
                i <= self.rezzed_programs@.len(),
                *self == *old(self),
                forall|j: int| 0 <= j < i ==> (#[trigger] self.rezzed_programs@[j]).instance_id != instance,
            decreases self.rezzed_programs@.len() - i,
        {
            if self.rezzed_programs[i].instance_id == instance {
                let ghost before = self.rezzed_programs@;
                let p = self.rezzed_programs.swap_remove(i);
                proof {
                    assert(first_instance_index(before, instance, i as int));
                    if old(self).ids_fresh() {
                        let after = self.rezzed_programs@;
                        assert forall|a: int|
                            0 <= a < after.len() implies exists|k: u64|
                                1 <= k <= self.counter() && (#[trigger] after[a]).instance_id.0
                                    == spec_instance_bits(k) by {
                            if a == i {
                                assert(after[a] == before[before.len() - 1]);
                            } else {
                                assert(after[a] == before[a]);
                            }
                        }
                        assert forall|a: int, b: int|
                            0 <= a < b < after.len() implies (#[trigger] after[a]).instance_id
                                != (#[trigger] after[b]).instance_id by {
                            let aa = if a == i { before.len() - 1 } else { a };
                            let bb = if b == i { before.len() - 1 } else { b };
                            assert(after[a] == before[aa]);
                            assert(after[b] == before[bb]);
                            assert(aa != bb);
                            if aa < bb {
                                assert(before[aa].instance_id != before[bb].instance_id);
                            } else {
                                assert(before[bb].instance_id != before[aa].instance_id);
                            }
                        }
                    }
                }
                return Some(p);
            }
            i = i + 1;
        }
        None
    }

    /// Remove every rezzed program whose instance id is `id`, keeping the
    /// others in order.
    pub fn remove_instance(&mut self, id: ProgramInstanceId)
        ensures
            final(self).rezzed_programs@ == without_instance(old(self).rezzed_programs@, id),
            *final(self) == (NetrunState { rezzed_programs: final(self).rezzed_programs, ..*old(self) }),
    {
        let mut kept: Vec<RezzedProgram> = Vec::new();
        let mut i: usize = 0;
        while i < self.rezzed_programs.len()
            invariant
                i <= self.rezzed_programs@.len(),
                *self == *old(self),
                kept@ == without_instance(self.rezzed_programs@.take(i as int), id),
            decreases self.rezzed_programs@.len() - i,
        {
            proof {
                assert(self.rezzed_programs@.take(i + 1).drop_last() =~= self.rezzed_programs@.take(i as int));
            }
            if self.rezzed_programs[i].instance_id != id {
                kept.push(self.rezzed_programs[i].duplicate());
            }
            i = i + 1;
        }
        proof {
            assert(self.rezzed_programs@.take(i as int) =~= self.rezzed_programs@);
        }
        self.rezzed_programs = kept;
    }

    /// Position of the first rezzed program with instance id `id`.
    pub fn find_instance(&self, id: ProgramInstanceId) -> (r: Option<usize>)
        ensures
            match r {
                Some(i) => first_instance_index(self.rezzed_programs@, id, i as int),
                None => forall|j: int|
                    0 <= j < self.rezzed_programs@.len() ==> (#[trigger] self.rezzed_programs@[j]).instance_id != id,
            },
    {
        let mut i: usize = 0;
        while i < self.rezzed_programs.len()
            invariant
                i <= self.rezzed_programs@.len(),
                forall|j: int| 0 <= j < i ==> (#[trigger] self.rezzed_programs@[j]).instance_id != id,
            decreases self.rezzed_programs@.len() - i,
        {
            if self.rezzed_programs[i].instance_id == id {
                return Some(i);
            }
            i = i + 1;
        }
        None
    }

    /// Lower the REZ of the rezzed program at position `i` by `by`.
    pub fn lower_rez_at(&mut self, i: usize, by: u8)
        requires
            i < old(self).rezzed_programs@.len(),
            by <= old(self).rezzed_programs@[i as int].current_rez,
        ensures
            final(self).rezzed_programs@ == old(self).rezzed_programs@.update(
                i as int,
                RezzedProgram {
                    current_rez: (old(self).rezzed_programs@[i as int].current_rez - by) as u8,
                    ..old(self).rezzed_programs@[i as int]
                },
            ),
            *final(self) == (NetrunState { rezzed_programs: final(self).rezzed_programs, ..*old(self) }),
    {
        let p = &self.rezzed_programs[i];
        let updated = RezzedProgram {
            instance_id: p.instance_id,
            program: p.program.duplicate(),
            current_rez: p.current_rez - by,
        };
        self.rezzed_programs.set(i, updated);
    }

    /// Record that the Netrunner holds the Control Node on `floor_idx`.
    pub fn take_control_node(&mut self, floor_idx: usize)
        ensures
            final(self).controlled_nodes@ == old(self).controlled_nodes@.push(floor_idx),
            *final(self) == (NetrunState { controlled_nodes: final(self).controlled_nodes, ..*old(self) }),
    {
        self.controlled_nodes.push(floor_idx);
    }

    /// Let go of every held Control Node.
    pub fn release_all_control_nodes(&mut self)
        ensures
            final(self).controlled_nodes@.len() == 0,
            *final(self) == (NetrunState { controlled_nodes: final(self).controlled_nodes, ..*old(self) }),
    {
        self.controlled_nodes.clear();
    }

    /// Queue a Virus to be left behind on jack-out.
    pub fn queue_virus(&mut self, virus: Virus)
        ensures
            final(self).queued_viruses@ == old(self).queued_viruses@.push(virus),
            *final(self) == (NetrunState { queued_viruses: final(self).queued_viruses, ..*old(self) }),
    {
        self.queued_viruses.push(virus);
    }

    /// Hand over every queued Virus, in queue order, and empty the queue.
    pub fn drain_viruses_for_jackout(&mut self) -> (drained: Vec<Virus>)
        ensures
            drained@ == old(self).queued_viruses@,
            final(self).queued_viruses@.len() == 0,
            *final(self) == (NetrunState { queued_viruses: final(self).queued_viruses, ..*old(self) }),
    {
        let mut drained: Vec<Virus> = Vec::new();
        std::mem::swap(&mut drained, &mut self.queued_viruses);
        drained
    }

    /// Start a new Turn: nothing spent, Slide available again, and the
    /// budget of `interface_rank`.
    pub fn reset_turn(&mut self, interface_rank: u8)
        ensures
            *final(self) == (NetrunState {
                net_actions_used_this_turn: 0,
                net_actions_max_this_turn: spec_net_actions_for_rank(interface_rank),
                slide_used_this_turn: false,
                ..*old(self)
            }),
    {
        self.net_actions_used_this_turn = 0;
        self.net_actions_max_this_turn = net_actions_for_rank(interface_rank);
        self.slide_used_this_turn = false;
    }
}

/// Rezzing a program and derezzing it by the id it was given gives back
/// exactly the program that was rezzed, and leaves the rezzed list as it was.
pub proof fn lemma_rez_then_derez(
    before: Seq<RezzedProgram>,
    rezzed: RezzedProgram,
    i: int,
)
    requires
        forall|j: int| 0 <= j < before.len() ==> (#[trigger] before[j]).instance_id != rezzed.instance_id,
        first_instance_index(before.push(rezzed), rezzed.instance_id, i),
    ensures
        i == before.len(),
        before.push(rezzed)[i] == rezzed,
        before.push(rezzed).update(i, before.push(rezzed).last()).drop_last() == before,
{
    if i < before.len() {
        assert(before.push(rezzed)[i] == before[i]);
    }
    assert(before.push(rezzed).update(i, before.push(rezzed).last()).drop_last() =~= before);
}

/// When no two rezzed programs share an instance id, derezzing an instance
/// leaves no program with that id rezzed, keeps the ids distinct, and takes
/// exactly one program away.
pub proof fn lemma_derez_removes_instance(old: NetrunState, new: NetrunState, id: ProgramInstanceId)
    requires
        old.ids_fresh(),
        derezzed(old, new, id),
    ensures
        forall|j: int|
            0 <= j < new.rezzed_programs@.len() ==> (#[trigger] new.rezzed_programs@[j]).instance_id != id,
        new.rezzed_programs@.len() == old.rezzed_programs@.len() - 1,
        new.ids_fresh(),
{
    let s = old.rezzed_programs@;
    let i = choose|i: int|
        #[trigger] first_instance_index(s, id, i) && new.rezzed_programs@ == s.update(i, s.last()).drop_last();
    let t = new.rezzed_programs@;
    assert forall|j: int| 0 <= j < t.len() implies (#[trigger] t[j]).instance_id != id by {
        let src = if j == i { s.len() - 1 } else { j };
        assert(t[j] == s[src]);
        assert(src != i);
        if src < i {
            assert(s[src].instance_id != s[i].instance_id);
        } else {
            assert(s[i].instance_id != s[src].instance_id);
        }
    }
    assert forall|a: int|
        0 <= a < t.len() implies exists|k: u64|
            1 <= k <= new.counter() && (#[trigger] t[a]).instance_id.0 == spec_instance_bits(k) by {
        let src = if a == i { s.len() - 1 } else { a };
        assert(t[a] == s[src]);
    }
    assert forall|a: int, b: int| 0 <= a < b < t.len() implies (#[trigger] t[a]).instance_id
        != (#[trigger] t[b]).instance_id by {
        let aa = if a == i { s.len() - 1 } else { a };
        let bb = if b == i { s.len() - 1 } else { b };
        assert(t[a] == s[aa]);
        assert(t[b] == s[bb]);
        if aa < bb {
            assert(s[aa].instance_id != s[bb].instance_id);
        } else {
            assert(s[bb].instance_id != s[aa].instance_id);
        }
    }
}

/// No two programs of `s` share an instance id.
pub open spec fn distinct_ids(s: Seq<RezzedProgram>) -> bool {
    forall|i: int, j: int|
        0 <= i < j < s.len() ==> (#[trigger] s[i]).instance_id != (#[trigger] s[j]).instance_id
}

/// Every program of `s` carries an id minted from a counter value in
/// `1..=counter`.
pub open spec fn minted_ids(s: Seq<RezzedProgram>, counter: u64) -> bool {
    forall|i: int|
        0 <= i < s.len() ==> exists|k: u64|
            1 <= k <= counter && (#[trigger] s[i]).instance_id.0 == spec_instance_bits(k)
}

/// With distinct ids, a program found at `j` is the first with its id.
pub proof fn lemma_distinct_first_index(s: Seq<RezzedProgram>, j: int)
    requires
        distinct_ids(s),
        0 <= j < s.len(),
    ensures
        first_instance_index(s, s[j].instance_id, j),
{
    assert forall|k: int| 0 <= k < j implies (#[trigger] s[k]).instance_id != s[j].instance_id by {
        assert(s[k].instance_id != s[j].instance_id);
    }
}

/// Taking out the program at `i`, the last one moving into its place,
/// keeps the ids distinct and minted, and keeps every other program.
pub proof fn lemma_swap_remove_keeps_ids(s: Seq<RezzedProgram>, i: int, counter: u64)
    requires
        distinct_ids(s),
        minted_ids(s, counter),
        0 <= i < s.len(),
    ensures
        distinct_ids(s.update(i, s.last()).drop_last()),
        minted_ids(s.update(i, s.last()).drop_last(), counter),
        forall|j: int|
            #![trigger s[j]]
            0 <= j < s.len() && j != i ==> exists|k: int|
                #![trigger s.update(i, s.last()).drop_last()[k]]
                0 <= k < s.len() - 1 && s.update(i, s.last()).drop_last()[k] == s[j],
{
    let t = s.update(i, s.last()).drop_last();
    assert forall|a: int, b: int| 0 <= a < b < t.len() implies (#[trigger] t[a]).instance_id
        != (#[trigger] t[b]).instance_id by {
        let aa = if a == i { s.len() - 1 } else { a };
        let bb = if b == i { s.len() - 1 } else { b };
        assert(t[a] == s[aa]);
        assert(t[b] == s[bb]);
        if aa < bb {
            assert(s[aa].instance_id != s[bb].instance_id);
        } else {
            assert(s[bb].instance_id != s[aa].instance_id);
        }
    }
    assert forall|a: int| 0 <= a < t.len() implies exists|k: u64|
        1 <= k <= counter && (#[trigger] t[a]).instance_id.0 == spec_instance_bits(k) by {
        let aa = if a == i { s.len() - 1 } else { a };
        assert(t[a] == s[aa]);
    }
    assert forall|j: int| #![trigger s[j]] 0 <= j < s.len() && j != i implies exists|k: int|
        #![trigger s.update(i, s.last()).drop_last()[k]]
        0 <= k < s.len() - 1 && s.update(i, s.last()).drop_last()[k] == s[j] by {
        if j == s.len() - 1 {
            assert(t[i] == s[j]);
        } else {
            assert(t[j] == s[j]);
        }
    }
}

/// Over whole netrun states: when every rezzed program carries a fresh id,
/// rezzing a program (as [`NetrunState::rez_program`] does, with the next
/// id) and then derezzing the id it was given leaves the rezzed programs as
/// they were, changes nothing else but the advanced counter, and leaves no
/// program with that id, so a second derez finds nothing.
pub proof fn lemma_rez_then_derez_state(
    s0: NetrunState,
    s1: NetrunState,
    s2: NetrunState,
    program: ProgramId,
    rez: u8,
)
    requires
        s0.ids_fresh(),
        s1.counter() == s0.counter() + 1,
        s1.rezzed_programs@ == s0.rezzed_programs@.push(
            RezzedProgram {
                instance_id: ProgramInstanceId(spec_instance_bits(s1.counter())),
                program,
                current_rez: rez,
            },
        ),
        s1 == (NetrunState { rezzed_programs: s1.rezzed_programs, program_id_counter: s1.program_id_counter, ..s0 }),
        derezzed(s1, s2, ProgramInstanceId(spec_instance_bits(s1.counter()))),
    ensures
        s2.rezzed_programs@ == s0.rezzed_programs@,
        s2 == (NetrunState { rezzed_programs: s2.rezzed_programs, program_id_counter: s1.program_id_counter, ..s0 }),
        forall|j: int|
            0 <= j < s2.rezzed_programs@.len() ==> (#[trigger] s2.rezzed_programs@[j]).instance_id
                != ProgramInstanceId(spec_instance_bits(s1.counter())),
{
    let id = ProgramInstanceId(spec_instance_bits(s1.counter()));
    let before = s0.rezzed_programs@;
    let rezzed = RezzedProgram { instance_id: id, program, current_rez: rez };
    assert forall|j: int| 0 <= j < before.len() implies (#[trigger] before[j]).instance_id != id by {
        let k = choose|k: u64| 1 <= k <= s0.counter() && before[j].instance_id.0 == spec_instance_bits(k);
        lemma_instance_bits_injective(k, s1.counter());
    }
    let i = choose|i: int|
        #[trigger] first_instance_index(s1.rezzed_programs@, id, i) && s2.rezzed_programs@
            == s1.rezzed_programs@.update(i, s1.rezzed_programs@.last()).drop_last();
    lemma_rez_then_derez(before, rezzed, i);
}

} // verus!

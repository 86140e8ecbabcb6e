//! NET Architecture data model and procedural generator.
//!
//! A NET Architecture is an ordered list of floors, index 0 at the top (the
//! Lobby) and the last index the deepest floor (the goal).

use vstd::prelude::*;
use crate::text::{hex_digits, push_hex, push_text};
use crate::catalog::{BlackIceId, DemonId};
use crate::rng::{draw_u32, draw_u8_inclusive, draw_usize_below};
use crate::types::{PriceTier, DV};
use rand_chacha::ChaCha20Rng;

verus! {

/// Stable identifier of a NET Architecture: a content slug or a generated id.
#[derive(Clone, Debug, PartialEq, Eq, Hash)]
pub struct NetArchId(pub String);

/// Identifier of whoever holds a Control Node (an entity UUID string or a
/// Demon slug).
#[derive(Clone, Debug, PartialEq, Eq, Hash)]
pub struct NetEntityId(pub String);

/// Location slug in Meatspace.
#[derive(Clone, Debug, PartialEq, Eq, Hash)]
pub struct LocationId(pub String);

/// A complete NET Architecture.
#[derive(Clone, Debug, PartialEq, Eq)]
pub struct NetArchitecture {
    pub id: NetArchId,
    pub display_name: String,
    /// Index 0 is the Lobby; the last index is the deepest floor.
    pub floors: Vec<Floor>,
    /// Meatspace places a Netrunner can jack in from.
    pub access_points: Vec<MeatPosition>,
}

/// One floor of a NET Architecture.
#[derive(Clone, Debug, PartialEq, Eq)]
pub enum Floor {
    /// A Password; beat `dv` to pass.
    Password { dv: DV },
    /// A Control Node operating a real-world system.
    ControlNode { dv: DV, controls: ControlTarget, currently_held_by: Option<NetEntityId> },
    /// A File.
    File { dv: DV, contents: FileContents },
    /// A Black ICE program and its state; `ice_per` is its PER.
    BlackIce { template: BlackIceId, state: BlackIceState, ice_per: u8 },
    /// A Demon and the floor indices of the Control Nodes it operates.
    Demon { template: DemonId, control_nodes: Vec<usize> },
}

/// State of a Black ICE program on a floor.
#[derive(Clone, Copy, Debug, PartialEq, Eq, Hash, Structural)]
pub enum BlackIceState {
    LyingInWait,
    InCombat,
    Slid,
    Derezzed,
}

/// The real-world system a Control Node operates, with a label.
#[derive(Clone, Debug, PartialEq, Eq)]
pub enum ControlTarget {
    Camera(String),
    Drone(String),
    Turret(String),
    Door(String),
    Sprinkler(String),
    Elevator(String),
    LaserGrid(String),
    Custom(String),
}

/// Contents of a File floor.
#[derive(Clone, Debug, PartialEq, Eq)]
pub enum FileContents {
    /// Real data, described by the string.
    Data(String),
    /// A dummy.
    Decoy,
    /// Locked behind a second Interface check.
    Encrypted { unlock_dv: DV },
}

/// A Meatspace place a Netrunner can jack in from.
#[derive(Clone, Debug, PartialEq, Eq)]
pub struct MeatPosition {
    pub location: LocationId,
    pub grid_square: Option<(u16, u16)>,
}

/// Input of the generator.
#[derive(Clone, Copy, Debug, PartialEq, Eq, Structural)]
pub struct NetArchSpec {
    /// Price tier: decides the floor count and the DVs.
    pub price: PriceTier,
    /// Security posture: decides the mix of floor kinds.
    pub intent: SecurityIntent,
    /// Minimum Fixer rank to buy the Architecture (not used by the generator).
    pub fixer_rank_required: u8,
}

/// The security posture of whoever built the Architecture.
#[derive(Clone, Copy, Debug, PartialEq, Eq, Hash, Structural)]
pub enum SecurityIntent {
    Defensive,
    Offensive,
    Balanced,
    Killer,
}

} // verus!

verus! {

// ---------------------------------------------------------------------------
// Generator
// ---------------------------------------------------------------------------

/// The Black ICE slugs the generator places, lighter ICE first.
pub open spec fn spec_black_ice_slug(i: int) -> Seq<char> {
    if i == 0 {
        "raven"@
    } else if i == 1 {
        "wisp"@
    } else if i == 2 {
        "scorpion"@
    } else if i == 3 {
        "skunk"@
    } else if i == 4 {
        "hellhound"@
    } else if i == 5 {
        "asp"@
    } else if i == 6 {
        "killer"@
    } else if i == 7 {
        "liche"@
    } else if i == 8 {
        "sabertooth"@
    } else if i == 9 {
        "kraken"@
    } else if i == 10 {
        "dragon"@
    } else {
        "giant"@
    }
}

/// Number of Black ICE slugs the generator knows.
pub const BLACK_ICE_SLUG_COUNT: usize = 12;

/// The `i`-th Black ICE slug.
fn black_ice_slug(i: usize) -> (s: String)
    requires
        i < BLACK_ICE_SLUG_COUNT,
    ensures
        s@ == spec_black_ice_slug(i as int),
{
    if i == 0 {
        String::from_str("raven")
    } else if i == 1 {
        String::from_str("wisp")
    } else if i == 2 {
        String::from_str("scorpion")
    } else if i == 3 {
        String::from_str("skunk")
    } else if i == 4 {
        String::from_str("hellhound")
    } else if i == 5 {
        String::from_str("asp")
    } else if i == 6 {
        String::from_str("killer")
    } else if i == 7 {
        String::from_str("liche")
    } else if i == 8 {
        String::from_str("sabertooth")
    } else if i == 9 {
        String::from_str("kraken")
    } else if i == 10 {
        String::from_str("dragon")
    } else {
        String::from_str("giant")
    }
}

/// The Demon slug for an Architecture of `floor_count` floors: an Imp
/// below 7 floors, an Efreet below 13, a Balron from 13 on.
pub open spec fn spec_demon_slug(floor_count: usize) -> Seq<char> {
    if floor_count >= 13 {
        "balron"@
    } else if floor_count >= 7 {
        "efreet"@
    } else {
        "imp"@
    }
}

/// Small Architectures (under 7 floors) get an Imp, mid-sized ones (7 to 12
/// floors) an Efreet, large ones (13 floors or more) a Balron.
pub proof fn lemma_demon_slug_by_size(floor_count: usize)
    ensures
        floor_count < 7 ==> spec_demon_slug(floor_count) == "imp"@,
        7 <= floor_count < 13 ==> spec_demon_slug(floor_count) == "efreet"@,
        13 <= floor_count ==> spec_demon_slug(floor_count) == "balron"@,
{
}

/// The Demon slug for an Architecture of `floor_count` floors.
fn demon_slug(floor_count: usize) -> (s: String)
    ensures
        s@ == spec_demon_slug(floor_count),
        floor_count < 7 ==> s@ == "imp"@,
        7 <= floor_count < 13 ==> s@ == "efreet"@,
        13 <= floor_count ==> s@ == "balron"@,
{
    if floor_count >= 13 {
        String::from_str("balron")
    } else if floor_count >= 7 {
        String::from_str("efreet")
    } else {
        String::from_str("imp")
    }
}

/// `(floor_min, floor_max, base_dv, high_dv)` of a price tier: Super-Luxury
/// 13–18 floors at DV12/DV10, Luxury 7–12 at DV10/DV8, anything else 3–6
/// at DV8/DV6.
pub open spec fn spec_tier_params(price: PriceTier) -> (u8, u8, DV, DV) {
    match price {
        PriceTier::SuperLuxury => (13, 18, DV(12), DV(10)),
        PriceTier::Luxury => (7, 12, DV(10), DV(8)),
        _ => (3, 6, DV(8), DV(6)),
    }
}

/// `(floor_min, floor_max, base_dv, high_dv)` of a price tier.
pub fn tier_params(price: PriceTier) -> (r: (u8, u8, DV, DV))
    ensures
        r == spec_tier_params(price),
{
    match price {
        PriceTier::SuperLuxury => (13, 18, DV(12), DV(10)),
        PriceTier::Luxury => (7, 12, DV(10), DV(8)),
        _ => (3, 6, DV(8), DV(6)),
    }
}

/// Super-Luxury Architectures have 13 to 18 floors at DV 12 (DV 10 on a
/// high roll), Luxury ones 7 to 12 at DV 10 (8), every cheaper tier 3 to 6
/// at DV 8 (6).
pub proof fn lemma_tier_params_by_price(price: PriceTier)
    ensures
        price == PriceTier::SuperLuxury ==> spec_tier_params(price) == (13u8, 18u8, DV(12), DV(10)),
        price == PriceTier::Luxury ==> spec_tier_params(price) == (7u8, 12u8, DV(10), DV(8)),
        price != PriceTier::SuperLuxury && price != PriceTier::Luxury ==> spec_tier_params(price) == (
            3u8,
            6u8,
            DV(8),
            DV(6),
        ),
{
}

/// The floor DV a d10 roll gives: `base_dv` on 1–7, `high_dv` above.
pub open spec fn spec_dv_for_roll(base_dv: DV, high_dv: DV, roll: u8) -> DV {
    if roll <= 7 { base_dv } else { high_dv }
}

/// The floor DV a d10 roll gives.
pub fn dv_for_roll(base_dv: DV, high_dv: DV, roll: u8) -> (dv: DV)
    ensures
        dv == spec_dv_for_roll(base_dv, high_dv, roll),
{
    if roll <= 7 { base_dv } else { high_dv }
}

/// Of the ten faces of the d10, 1 to 7 give the base DV and 8 to 10 the
/// high one.
pub proof fn lemma_dv_for_roll_faces(base_dv: DV, high_dv: DV, roll: u8)
    requires
        1 <= roll <= 10,
    ensures
        roll <= 7 ==> spec_dv_for_roll(base_dv, high_dv, roll) == base_dv,
        8 <= roll ==> spec_dv_for_roll(base_dv, high_dv, roll) == high_dv,
{
}

/// Pick a floor DV: a d10 is rolled and read by [`dv_for_roll`].
pub fn pick_dv(base_dv: DV, high_dv: DV, rng: &mut ChaCha20Rng) -> (dv: DV)
    ensures
        exists|roll: u8| 1 <= roll <= 10 && dv == spec_dv_for_roll(base_dv, high_dv, roll),
{
    let roll = draw_u8_inclusive(rng, 1, 10);
    dv_for_roll(base_dv, high_dv, roll)
}

/// Pick one of the Black ICE slugs, uniformly.
pub fn pick_black_ice(rng: &mut ChaCha20Rng) -> (id: BlackIceId)
    ensures
        exists|i: int| 0 <= i < BLACK_ICE_SLUG_COUNT && id.0@ == spec_black_ice_slug(i),
{
    let idx = draw_usize_below(rng, 0, BLACK_ICE_SLUG_COUNT);
    BlackIceId(black_ice_slug(idx))
}

/// A Control Node target the generator places: one of the eight kinds,
/// with its generic label.
pub open spec fn generic_control_target(t: ControlTarget) -> bool {
    match t {
        ControlTarget::Camera(s) => s@ == "security camera"@,
        ControlTarget::Drone(s) => s@ == "patrol drone"@,
        ControlTarget::Turret(s) => s@ == "automated turret"@,
        ControlTarget::Door(s) => s@ == "security door"@,
        ControlTarget::Sprinkler(s) => s@ == "sprinkler system"@,
        ControlTarget::Elevator(s) => s@ == "freight elevator"@,
        ControlTarget::LaserGrid(s) => s@ == "laser grid"@,
        ControlTarget::Custom(s) => s@ == "custom system"@,
    }
}

/// The Control Node target a roll of 0–7 gives: camera, drone, turret,
/// door, sprinkler, elevator, laser grid, anything else a custom system.
pub open spec fn target_for_roll(t: ControlTarget, roll: u8) -> bool {
    match t {
        ControlTarget::Camera(s) => roll == 0 && s@ == "security camera"@,
        ControlTarget::Drone(s) => roll == 1 && s@ == "patrol drone"@,
        ControlTarget::Turret(s) => roll == 2 && s@ == "automated turret"@,
        ControlTarget::Door(s) => roll == 3 && s@ == "security door"@,
        ControlTarget::Sprinkler(s) => roll == 4 && s@ == "sprinkler system"@,
        ControlTarget::Elevator(s) => roll == 5 && s@ == "freight elevator"@,
        ControlTarget::LaserGrid(s) => roll == 6 && s@ == "laser grid"@,
        ControlTarget::Custom(s) => roll >= 7 && s@ == "custom system"@,
    }
}

/// The Control Node target a roll gives.
pub fn control_target_for_roll(roll: u8) -> (t: ControlTarget)
    ensures
        target_for_roll(t, roll),
{
    if roll == 0 {
        ControlTarget::Camera(String::from_str("security camera"))
    } else if roll == 1 {
        ControlTarget::Drone(String::from_str("patrol drone"))
    } else if roll == 2 {
        ControlTarget::Turret(String::from_str("automated turret"))
    } else if roll == 3 {
        ControlTarget::Door(String::from_str("security door"))
    } else if roll == 4 {
        ControlTarget::Sprinkler(String::from_str("sprinkler system"))
    } else if roll == 5 {
        ControlTarget::Elevator(String::from_str("freight elevator"))
    } else if roll == 6 {
        ControlTarget::LaserGrid(String::from_str("laser grid"))
    } else {
        ControlTarget::Custom(String::from_str("custom system"))
    }
}

/// Pick a Control Node target: a roll of 0–7, read by
/// [`control_target_for_roll`].
pub fn pick_control_target(rng: &mut ChaCha20Rng) -> (t: ControlTarget)
    ensures
        generic_control_target(t),
        exists|roll: u8| roll <= 7 && target_for_roll(t, roll),
{
    let roll = draw_u8_inclusive(rng, 0, 7);
    control_target_for_roll(roll)
}

/// The File contents a d10 roll gives: data on 1–6, a decoy on 7–8,
/// encrypted (unlock DV two above `base_dv`) above.
pub open spec fn contents_for_roll(c: FileContents, base_dv: DV, roll: u8) -> bool {
    match c {
        FileContents::Data(d) => roll <= 6 && d@ == "Corporate data"@,
        FileContents::Decoy => 7 <= roll <= 8,
        FileContents::Encrypted { unlock_dv } => roll > 8 && unlock_dv.0 == base_dv.0 + 2,
    }
}

/// A File holds real data on 1 to 6, a decoy on 7 or 8, and on 9 or 10 is
/// encrypted behind a DV two above the Architecture's base DV.
pub proof fn lemma_file_contents_bands(c: FileContents, base_dv: DV, roll: u8)
    requires
        contents_for_roll(c, base_dv, roll),
    ensures
        roll <= 6 ==> c is Data,
        7 <= roll <= 8 ==> c is Decoy,
        9 <= roll ==> c == (FileContents::Encrypted { unlock_dv: DV((base_dv.0 + 2) as u8) }),
{
}

/// The File contents a d10 roll gives.
pub fn file_contents_for_roll(base_dv: DV, roll: u8) -> (c: FileContents)
    requires
        base_dv.0 <= 253,
    ensures
        contents_for_roll(c, base_dv, roll),
{
    if roll <= 6 {
        FileContents::Data(String::from_str("Corporate data"))
    } else if roll <= 8 {
        FileContents::Decoy
    } else {
        FileContents::Encrypted { unlock_dv: DV(base_dv.0 + 2) }
    }
}

/// Pick the contents of a File: a d10 is rolled and read by
/// [`file_contents_for_roll`].
pub fn pick_file_contents(base_dv: DV, rng: &mut ChaCha20Rng) -> (c: FileContents)
    requires
        base_dv.0 <= 253,
    ensures
        exists|roll: u8| 1 <= roll <= 10 && contents_for_roll(c, base_dv, roll),
{
    let roll = draw_u8_inclusive(rng, 1, 10);
    file_contents_for_roll(base_dv, roll)
}

/// The d100 cutoffs `(password, file, control)` of a security intent:
/// a roll up to the first is a Password, up to the second a File, up to
/// the third a Control Node, above it Black ICE.
pub open spec fn spec_cutoffs(intent: SecurityIntent) -> (u8, u8, u8) {
    match intent {
        SecurityIntent::Defensive => (40, 70, 90),
        SecurityIntent::Offensive => (10, 20, 35),
        SecurityIntent::Balanced => (25, 50, 75),
        SecurityIntent::Killer => (5, 10, 20),
    }
}

/// The kind of floor a d100 roll gives under an intent:
/// 0 Password, 1 File, 2 Control Node, 3 Black ICE.
pub open spec fn spec_kind_for_roll(intent: SecurityIntent, roll: u8) -> int {
    let (p, f, c) = spec_cutoffs(intent);
    if roll <= p {
        0
    } else if roll <= f {
        1
    } else if roll <= c {
        2
    } else {
        3
    }
}

/// The d100 bands of each intent: a Defensive Architecture rolls a
/// Password up to 40, a File up to 70, a Control Node up to 90; an
/// Offensive one up to 10, 20 and 35; a Balanced one up to 25, 50 and 75; a
/// Killer one up to 5, 10 and 20. Anything above is Black ICE.
pub proof fn lemma_kind_bands(intent: SecurityIntent, roll: u8)
    ensures
        intent == SecurityIntent::Defensive ==> spec_kind_for_roll(intent, roll) == (if roll <= 40 {
            0int
        } else if roll <= 70 {
            1int
        } else if roll <= 90 {
            2int
        } else {
            3int
        }),
        intent == SecurityIntent::Offensive ==> spec_kind_for_roll(intent, roll) == (if roll <= 10 {
            0int
        } else if roll <= 20 {
            1int
        } else if roll <= 35 {
            2int
        } else {
            3int
        }),
        intent == SecurityIntent::Balanced ==> spec_kind_for_roll(intent, roll) == (if roll <= 25 {
            0int
        } else if roll <= 50 {
            1int
        } else if roll <= 75 {
            2int
        } else {
            3int
        }),
        intent == SecurityIntent::Killer ==> spec_kind_for_roll(intent, roll) == (if roll <= 5 {
            0int
        } else if roll <= 10 {
            1int
        } else if roll <= 20 {
            2int
        } else {
            3int
        }),
{
}

/// The kind of a floor: 0 Password, 1 File, 2 Control Node, 3 Black ICE, 4 Demon.
pub open spec fn spec_floor_kind(f: Floor) -> int {
    match f {
        Floor::Password { .. } => 0,
        Floor::File { .. } => 1,
        Floor::ControlNode { .. } => 2,
        Floor::BlackIce { .. } => 3,
        Floor::Demon { .. } => 4,
    }
}

/// A generated floor before the goal: its DV (if it has one) is `base_dv`
/// or `high_dv`, a File holds corporate data, a decoy or an encryption
/// two above `base_dv`, a Control Node is unheld with a generic target, a
/// Black ICE lies in wait with a known slug and PER 0, and it is not a
/// Demon.
pub open spec fn generated_floor_ok(f: Floor, base_dv: DV, high_dv: DV) -> bool {
    match f {
        Floor::Password { dv } => dv == base_dv || dv == high_dv,
        Floor::File { dv, contents } => (dv == base_dv || dv == high_dv) && match contents {
            FileContents::Data(d) => d@ == "Corporate data"@,
            FileContents::Decoy => true,
            FileContents::Encrypted { unlock_dv } => unlock_dv.0 == base_dv.0 + 2,
        },
        Floor::ControlNode { dv, controls, currently_held_by } => (dv == base_dv || dv == high_dv)
            && currently_held_by is None && generic_control_target(controls),
        Floor::BlackIce { template, state, ice_per } => state == BlackIceState::LyingInWait && ice_per == 0
            && exists|i: int| 0 <= i < BLACK_ICE_SLUG_COUNT && template.0@ == spec_black_ice_slug(i),
        Floor::Demon { .. } => false,
    }
}

/// The kind of floor a d100 roll gives under an intent, by its cutoffs:
/// 0 Password, 1 File, 2 Control Node, 3 Black ICE.
pub fn floor_kind_for_roll(intent: SecurityIntent, roll: u8) -> (k: u8)
    ensures
        k == spec_kind_for_roll(intent, roll),
{
    let (password_cutoff, file_cutoff, control_cutoff) = match intent {
        SecurityIntent::Defensive => (40u8, 70u8, 90u8),
        SecurityIntent::Offensive => (10u8, 20u8, 35u8),
        SecurityIntent::Balanced => (25u8, 50u8, 75u8),
        SecurityIntent::Killer => (5u8, 10u8, 20u8),
    };
    if roll <= password_cutoff {
        0
    } else if roll <= file_cutoff {
        1
    } else if roll <= control_cutoff {
        2
    } else {
        3
    }
}

/// Pick a floor before the goal: a d100 is rolled and read by
/// [`floor_kind_for_roll`], then the DV and the details are picked.
pub fn pick_floor(
    intent: SecurityIntent,
    i: usize,
    total: usize,
    base_dv: DV,
    high_dv: DV,
    rng: &mut ChaCha20Rng,
) -> (f: Floor)
    requires
        base_dv.0 <= 253,
    ensures
        generated_floor_ok(f, base_dv, high_dv),
        exists|roll: u8| 1 <= roll <= 100 && spec_kind_for_roll(intent, roll) == spec_floor_kind(f),
{
    let roll: u8 = draw_u8_inclusive(rng, 1, 100);
    let kind = floor_kind_for_roll(intent, roll);
    let dv = pick_dv(base_dv, high_dv, rng);
    let f = if kind == 0 {
        Floor::Password { dv }
    } else if kind == 1 {
        Floor::File { dv, contents: pick_file_contents(base_dv, rng) }
    } else if kind == 2 {
        Floor::ControlNode { dv, controls: pick_control_target(rng), currently_held_by: None }
    } else {
        Floor::BlackIce { template: pick_black_ice(rng), state: BlackIceState::LyingInWait, ice_per: 0 }
    };
    proof {
        assert(spec_kind_for_roll(intent, roll) == spec_floor_kind(f));
    }
    f
}

/// The goal floor: a File of mission-critical data or a Control Node
/// (even odds), unheld, at `base_dv` or `high_dv`.
pub open spec fn goal_floor_ok(f: Floor, base_dv: DV, high_dv: DV) -> bool {
    match f {
        Floor::File { dv, contents } => (dv == base_dv || dv == high_dv) && (contents matches FileContents::Data(d)
            && d@ == "Mission-critical data"@),
        Floor::ControlNode { dv, controls, currently_held_by } => (dv == base_dv || dv == high_dv)
            && currently_held_by is None && generic_control_target(controls),
        _ => false,
    }
}

/// The goal floor `f` came from a d10 `dv_roll` for its DV and a `coin`
/// of 0 (a File) or 1 (a Control Node).
pub open spec fn goal_for_rolls(f: Floor, base_dv: DV, high_dv: DV, dv_roll: u8, coin: u8) -> bool {
    1 <= dv_roll <= 10 && coin <= 1 && (f is File <==> coin == 0) && match f {
        Floor::File { dv, .. } => dv == spec_dv_for_roll(base_dv, high_dv, dv_roll),
        Floor::ControlNode { dv, .. } => dv == spec_dv_for_roll(base_dv, high_dv, dv_roll),
        _ => false,
    }
}

/// Pick the goal floor: its DV by [`pick_dv`], then a coin of 0 or 1 makes
/// it a File (on 0) or a Control Node.
pub fn pick_goal_floor(base_dv: DV, high_dv: DV, rng: &mut ChaCha20Rng) -> (f: Floor)
    ensures
        goal_floor_ok(f, base_dv, high_dv),
        exists|dv_roll: u8, coin: u8| #[trigger] goal_for_rolls(f, base_dv, high_dv, dv_roll, coin),
{
    let dv = pick_dv(base_dv, high_dv, rng);
    let ghost dv_roll = choose|roll: u8| 1 <= roll <= 10 && dv == spec_dv_for_roll(base_dv, high_dv, roll);
    let coin = draw_u8_inclusive(rng, 0, 1);
    let f = if coin == 0 {
        Floor::File { dv, contents: FileContents::Data(String::from_str("Mission-critical data")) }
    } else {
        Floor::ControlNode { dv, controls: pick_control_target(rng), currently_held_by: None }
    };
    proof {
        assert(goal_for_rolls(f, base_dv, high_dv, dv_roll, coin));
    }
    f
}

/// The positions of the Control Node floors of `s`, in order.
pub open spec fn control_node_indices(s: Seq<Floor>) -> Seq<usize>
    decreases s.len(),
{
    if s.len() == 0 {
        Seq::empty()
    } else {
        let rest = control_node_indices(s.drop_last());
        if s.last() is ControlNode {
            rest.push((s.len() - 1) as usize)
        } else {
            rest
        }
    }
}

/// The Demon floor the generator adds to an Architecture of `floor_count`
/// floors whose Control Nodes stand at `nodes`.
pub open spec fn spec_demon_floor(floor_count: usize, nodes: Seq<usize>, f: Floor) -> bool {
    f matches Floor::Demon { template, control_nodes } && (template.0@ == spec_demon_slug(floor_count)
        && control_nodes@ == nodes)
}

/// Two floor lists of one length with their Control Nodes at the same
/// places have the same Control Node positions.
pub proof fn lemma_control_indices_same_kinds(a: Seq<Floor>, b: Seq<Floor>)
    requires
        a.len() == b.len(),
        forall|i: int| 0 <= i < a.len() ==> ((#[trigger] a[i]) is ControlNode <==> b[i] is ControlNode),
    ensures
        control_node_indices(a) == control_node_indices(b),
    decreases a.len(),
{
    if a.len() > 0 {
        assert forall|i: int| 0 <= i < a.drop_last().len() implies ((#[trigger] a.drop_last()[i]) is ControlNode
            <==> b.drop_last()[i] is ControlNode) by {
            assert(a.drop_last()[i] == a[i] && b.drop_last()[i] == b[i]);
        }
        lemma_control_indices_same_kinds(a.drop_last(), b.drop_last());
    }
}

/// Every position listed by [`control_node_indices`] names a Control Node
/// floor of the list (of a list that a `Vec` can hold).
pub proof fn lemma_control_indices_name_control_nodes(s: Seq<Floor>)
    requires
        s.len() <= usize::MAX,
    ensures
        forall|k: int|
            0 <= k < control_node_indices(s).len() ==> {
                let idx = #[trigger] control_node_indices(s)[k];
                0 <= idx < s.len() && s[idx as int] is ControlNode
            },
    decreases s.len(),
{
    if s.len() > 0 {
        lemma_control_indices_name_control_nodes(s.drop_last());
        let rest = control_node_indices(s.drop_last());
        assert forall|k: int| 0 <= k < control_node_indices(s).len() implies {
            let idx = #[trigger] control_node_indices(s)[k];
            0 <= idx < s.len() && s[idx as int] is ControlNode
        } by {
            if k < rest.len() {
                assert(control_node_indices(s)[k] == rest[k]);
                assert(s.drop_last()[rest[k] as int] == s[rest[k] as int]);
            } else {
                assert(s.last() is ControlNode);
                assert(control_node_indices(s)[k] == s.len() - 1);
            }
        }
    }
}

/// Whether the generator adds a Demon, given the intent, whether there is
/// a Control Node, the floor count and the roll it makes: a Killer
/// Architecture of 5 floors or more always (else on a roll of 0 of 0–1);
/// an Offensive or Balanced one with a Control Node on 1–3 of a d10; a
/// Defensive one with a Control Node on a 1.
pub open spec fn spec_demon_wanted(intent: SecurityIntent, has_nodes: bool, floor_count: usize, roll: u8) -> bool {
    match intent {
        SecurityIntent::Killer => floor_count >= 5 || roll == 0,
        SecurityIntent::Offensive | SecurityIntent::Balanced => has_nodes && roll <= 3,
        SecurityIntent::Defensive => has_nodes && roll == 1,
    }
}

/// A Killer Architecture of 5 floors or more always gets a Demon; no
/// Offensive, Balanced or Defensive one without a Control Node gets one; with
/// a Control Node, an Offensive or Balanced one gets one on 1 to 3 and a
/// Defensive one only on 1.
pub proof fn lemma_demon_wanted_cases(intent: SecurityIntent, has_nodes: bool, floor_count: usize, roll: u8)
    ensures
        intent == SecurityIntent::Killer && floor_count >= 5 ==> spec_demon_wanted(
            intent,
            has_nodes,
            floor_count,
            roll,
        ),
        intent == SecurityIntent::Killer && floor_count < 5 ==> (spec_demon_wanted(
            intent,
            has_nodes,
            floor_count,
            roll,
        ) <==> roll == 0),
        intent != SecurityIntent::Killer && !has_nodes ==> !spec_demon_wanted(intent, has_nodes, floor_count, roll),
        (intent == SecurityIntent::Offensive || intent == SecurityIntent::Balanced) && has_nodes ==> (
        spec_demon_wanted(intent, has_nodes, floor_count, roll) <==> roll <= 3),
        intent == SecurityIntent::Defensive && has_nodes ==> (spec_demon_wanted(
            intent,
            has_nodes,
            floor_count,
            roll,
        ) <==> roll == 1),
{
}

/// Whether the generator adds a Demon.
pub fn demon_wanted(intent: SecurityIntent, has_nodes: bool, floor_count: usize, roll: u8) -> (b: bool)
    ensures
        b == spec_demon_wanted(intent, has_nodes, floor_count, roll),
{
    match intent {
        SecurityIntent::Killer => floor_count >= 5 || roll == 0,
        SecurityIntent::Offensive | SecurityIntent::Balanced => has_nodes && roll <= 3,
        SecurityIntent::Defensive => has_nodes && roll == 1,
    }
}

/// The range of the roll the Demon decision makes under an intent: 0–1
/// for Killer, 1–10 otherwise.
pub open spec fn demon_roll_in_range(intent: SecurityIntent, roll: u8) -> bool {
    if intent == SecurityIntent::Killer { roll <= 1 } else { 1 <= roll <= 10 }
}

/// The positions of the Control Node floors of `floors`.
fn collect_control_nodes(floors: &Vec<Floor>) -> (v: Vec<usize>)
    ensures
        v@ == control_node_indices(floors@),
{
    let mut v: Vec<usize> = Vec::new();
    let mut i: usize = 0;
    while i < floors.len()
        invariant
            i <= floors@.len(),
            v@ == control_node_indices(floors@.take(i as int)),
        decreases floors@.len() - i,
    {
        proof {
            assert(floors@.take(i + 1).drop_last() =~= floors@.take(i as int));
        }
        match &floors[i] {
            Floor::ControlNode { .. } => { v.push(i); },
            _ => {},
        }
        i = i + 1;
    }
    proof {
        assert(floors@.take(i as int) =~= floors@);
    }
    v
}

/// Perhaps add a Demon just before the last floor, operating every Control
/// Node of the resulting Architecture (their positions counted after the
/// Demon is in place). A Killer Architecture of 5 floors or more always
/// gets one (a smaller one on even odds); Offensive and Balanced ones on 3
/// in 10, Defensive ones on 1 in 10, and these only when they have a
/// Control Node.
pub fn maybe_add_demon(floors: &mut Vec<Floor>, intent: SecurityIntent, floor_count: usize, rng: &mut ChaCha20Rng)
    ensures
        final(floors)@ == old(floors)@ || (final(floors)@.len() == old(floors)@.len() + 1 && {
            let pos = if old(floors)@.len() == 0 { 0 } else { old(floors)@.len() - 1 };
            &&& final(floors)@ == old(floors)@.insert(pos, final(floors)@[pos])
            &&& spec_demon_floor(floor_count, control_node_indices(final(floors)@), final(floors)@[pos])
        }),
        intent == SecurityIntent::Killer && floor_count >= 5 ==> final(floors)@.len() == old(floors)@.len() + 1,
        intent != SecurityIntent::Killer && control_node_indices(old(floors)@).len() == 0 ==> final(floors)@
            == old(floors)@,
        exists|roll: u8|
            demon_roll_in_range(intent, roll) && ((final(floors)@ != old(floors)@) == spec_demon_wanted(
                intent,
                control_node_indices(old(floors)@).len() > 0,
                floor_count,
                roll,
            )),
{
    let has_control_nodes = collect_control_nodes(floors).len() > 0;
    let roll: u8 = match intent {
        SecurityIntent::Killer => if floor_count >= 5 { 1 } else { draw_u8_inclusive(rng, 0, 1) },
        _ => if has_control_nodes { draw_u8_inclusive(rng, 1, 10) } else { 1 },
    };
    let add_demon = demon_wanted(intent, has_control_nodes, floor_count, roll);
    assert(demon_roll_in_range(intent, roll));
    if !add_demon {
        assert((floors@ != old(floors)@) == spec_demon_wanted(intent, has_control_nodes, floor_count, roll));
        return;
    }
    let insert_pos = if floors.len() == 0 { 0 } else { floors.len() - 1 };
    let ghost before = floors@;
    floors.insert(
        insert_pos,
        Floor::Demon { template: DemonId(demon_slug(floor_count)), control_nodes: Vec::new() },
    );
    let ghost placed = floors@;
    let nodes = collect_control_nodes(floors);
    let demon_floor = Floor::Demon { template: DemonId(demon_slug(floor_count)), control_nodes: nodes };
    floors.set(insert_pos, demon_floor);
    proof {
        lemma_control_indices_same_kinds(placed, floors@);
        assert(floors@ =~= before.insert(insert_pos as int, floors@[insert_pos as int]));
        assert(floors@.len() != before.len());
        assert((floors@ != old(floors)@) == spec_demon_wanted(intent, has_control_nodes, floor_count, roll));
    }
}

/// The id of a generated Architecture: `arch-` and `x` in eight lowercase
/// hex digits, zero-padded.
fn arch_label(x: u32) -> (s: String)
    ensures
        s@ == "arch-"@ + hex_digits(x as nat, 8),
{
    let mut s = String::new();
    push_text(&mut s, "arch-");
    push_hex(&mut s, x, 8);
    proof {
        assert(Seq::<char>::empty() + "arch-"@ =~= "arch-"@);
    }
    s
}

/// The placeholder access point.
fn placeholder_access_point() -> (p: MeatPosition)
    ensures
        p.location.0@ == "placeholder"@,
        p.grid_square is None,
{
    MeatPosition { location: LocationId(String::from_str("placeholder")), grid_square: None }
}

/// `floors` holds `n` floors that are not Demons, and perhaps one Demon
/// just before the last floor.
pub open spec fn has_floor_count(floors: Seq<Floor>, n: int) -> bool {
    ||| (floors.len() == n && forall|i: int| 0 <= i < n ==> !(#[trigger] floors[i] is Demon))
    ||| (floors.len() == n + 1 && floors[n - 1] is Demon && forall|i: int|
        0 <= i < n + 1 && i != n - 1 ==> !(#[trigger] floors[i] is Demon))
}

/// Generate a NET Architecture.
///
/// The floor count is drawn from the tier's range; all floors but the last
/// are picked by [`pick_floor`], the last is the goal (a File or a Control
/// Node); a Demon, operating the Control Nodes of the other floors, may
/// then be added just before the goal. There are 1 to 3
/// placeholder access points, and the id is `arch-` and eight hex digits.
pub fn generate_net_architecture(spec: &NetArchSpec, rng: &mut ChaCha20Rng) -> (arch: NetArchitecture)
    ensures
        ({
            let (lo, hi, base_dv, high_dv) = spec_tier_params(spec.price);
            &&& exists|n: int| lo <= n <= hi && #[trigger] has_floor_count(arch.floors@, n)
            &&& goal_floor_ok(arch.floors@.last(), base_dv, high_dv)
            &&& forall|i: int|
                0 <= i < arch.floors@.len() - 1 ==> (#[trigger] arch.floors@[i] is Demon)
                    || generated_floor_ok(arch.floors@[i], base_dv, high_dv)
            &&& spec.intent == SecurityIntent::Killer && lo >= 5 ==> exists|i: int|
                0 <= i < arch.floors@.len() && #[trigger] arch.floors@[i] is Demon
            &&& forall|i: int|
                0 <= i < arch.floors@.len() && #[trigger] arch.floors@[i] is Demon ==> spec_demon_floor(
                    (arch.floors@.len() - 1) as usize,
                    control_node_indices(arch.floors@),
                    arch.floors@[i],
                )
            &&& forall|i: int|
                0 <= i < arch.floors@.len() ==> (#[trigger] arch.floors@[i] matches Floor::Demon { template, .. }
                    ==> (arch.floors@.len() - 1 < 7 ==> template.0@ == "imp"@) && (7 <= arch.floors@.len() - 1
                    < 13 ==> template.0@ == "efreet"@) && (13 <= arch.floors@.len() - 1 ==> template.0@
                    == "balron"@))
        }),
        1 <= arch.access_points@.len() <= 3,
        forall|i: int|
            0 <= i < arch.access_points@.len() ==> (#[trigger] arch.access_points@[i]).location.0@
                == "placeholder"@ && arch.access_points@[i].grid_square is None,
        exists|x: u32| arch.id.0@ == "arch-"@ + hex_digits(x as nat, 8),
        arch.display_name@ == "Procedural NET Architecture"@,
{
    let (floor_min, floor_max, base_dv, high_dv) = tier_params(spec.price);
    let floor_count = draw_u8_inclusive(rng, floor_min, floor_max) as usize;
    let access_count = draw_u8_inclusive(rng, 1, 3) as usize;
    let mut access_points: Vec<MeatPosition> = Vec::new();
    let mut a: usize = 0;
    while a < access_count
        invariant
            a <= access_count,
            access_points@.len() == a,
            forall|i: int|
                0 <= i < a ==> (#[trigger] access_points@[i]).location.0@ == "placeholder"@
                    && access_points@[i].grid_square is None,
        decreases access_count - a,
    {
        access_points.push(placeholder_access_point());
        a = a + 1;
    }
    let pre_floors = floor_count - 1;
    let mut floors: Vec<Floor> = Vec::new();
    let mut i: usize = 0;
    while i < pre_floors
        invariant
            i <= pre_floors,
            floors@.len() == i,
            base_dv.0 <= 12,
            forall|k: int| 0 <= k < i ==> generated_floor_ok(#[trigger] floors@[k], base_dv, high_dv),
        decreases pre_floors - i,
    {
        let floor = pick_floor(spec.intent, i, pre_floors, base_dv, high_dv, rng);
        floors.push(floor);
        i = i + 1;
    }
    let goal = pick_goal_floor(base_dv, high_dv, rng);
    floors.push(goal);
    let ghost body = floors@;
    maybe_add_demon(&mut floors, spec.intent, floor_count, rng);
    proof {
        let n = floor_count as int;
        assert(body.len() == n);
        assert forall|k: int| 0 <= k < n implies !(#[trigger] body[k] is Demon) by {
            if k < n - 1 {
                assert(generated_floor_ok(body[k], base_dv, high_dv));
            }
        }
        if floors@ != body {
            let pos = n - 1;
            assert(floors@ == body.insert(pos, floors@[pos]));
            assert forall|k: int| 0 <= k < n + 1 && k != n - 1 implies !(#[trigger] floors@[k] is Demon) by {
                if k < n - 1 {
                    assert(floors@[k] == body[k]);
                } else {
                    assert(floors@[k] == body[k - 1]);
                }
            }
            assert(floors@.last() == body.last());
            assert forall|k: int| 0 <= k < floors@.len() && #[trigger] floors@[k] is Demon implies k == pos by {
                if k != pos {
                    assert(!(floors@[k] is Demon));
                }
            }
            assert forall|k: int| 0 <= k < floors@.len() - 1 implies (#[trigger] floors@[k] is Demon)
                || generated_floor_ok(floors@[k], base_dv, high_dv) by {
                if k < n - 1 {
                    assert(floors@[k] == body[k]);
                }
            }
        }
        assert(has_floor_count(floors@, n));
    }
    let x = draw_u32(rng);
    let arch_id = NetArchId(arch_label(x));
    NetArchitecture {
        id: arch_id,
        display_name: String::from_str("Procedural NET Architecture"),
        floors,
        access_points,
    }
}

} // verus!

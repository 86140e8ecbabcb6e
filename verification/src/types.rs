//! Small value types shared across the rules engine.

use vstd::prelude::*;

verus! {

/// A Difficulty Value: the number a check must meet or beat.
#[derive(Clone, Copy, Debug, PartialEq, Eq, Hash, Structural)]
pub struct DV(pub u8);

impl DV {
    /// Simple task: DV9.
    pub fn simple() -> (dv: DV)
        ensures
            dv.0 == 9,
    {
        DV(9)
    }

    /// Everyday task: DV13.
    pub fn everyday() -> (dv: DV)
        ensures
            dv.0 == 13,
    {
        DV(13)
    }

    /// Difficult task: DV15.
    pub fn difficult() -> (dv: DV)
        ensures
            dv.0 == 15,
    {
        DV(15)
    }

    /// Professional task: DV17.
    pub fn professional() -> (dv: DV)
        ensures
            dv.0 == 17,
    {
        DV(17)
    }

    /// Heroic task: DV21.
    pub fn heroic() -> (dv: DV)
        ensures
            dv.0 == 21,
    {
        DV(21)
    }

    /// Incredible task: DV24.
    pub fn incredible() -> (dv: DV)
        ensures
            dv.0 == 24,
    {
        DV(24)
    }

    /// Legendary task: DV29.
    pub fn legendary() -> (dv: DV)
        ensures
            dv.0 == 29,
    {
        DV(29)
    }
}

/// Identifier of any entity taking part in a scene (characters, ICE, ...).
/// The 128 bits are the entity's UUID.
#[derive(Clone, Copy, Debug, PartialEq, Eq, Hash, Structural)]
pub struct EntityId(pub u128);

/// Identifier of a character; shares its bits with the character's [`EntityId`].
#[derive(Clone, Copy, Debug, PartialEq, Eq, Hash, Structural)]
pub struct CharacterId(pub u128);

/// Identifier of one effect placed on a character's effect stack.
#[derive(Clone, Copy, Debug, PartialEq, Eq, Hash, Structural)]
pub struct EffectInstanceId(pub u128);

/// An amount of eurobucks.
#[derive(Clone, Copy, Debug, PartialEq, Eq, Hash, Structural)]
pub struct Eurobucks(pub u32);

/// The price categories of the rulebook's shopping tables.
#[derive(Clone, Copy, Debug, PartialEq, Eq, Hash, Structural)]
pub enum PriceTier {
    Cheap,
    Everyday,
    Costly,
    Premium,
    Expensive,
    VeryExpensive,
    Luxury,
    SuperLuxury,
}

/// The character STATs.
#[derive(Clone, Copy, Debug, PartialEq, Eq, Hash, Structural)]
pub enum Stat {
    Int,
    Ref,
    Dex,
    Tech,
    Cool,
    Will,
    Luck,
    Move,
    Body,
    Emp,
}

} // verus!

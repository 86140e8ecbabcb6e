//! The errors the rules engine reports.

use vstd::prelude::*;
use crate::effects::ProgramId;
use crate::types::EntityId;

verus! {

/// Everything that can make a rules action refuse to resolve.
#[derive(Clone, Debug, PartialEq, Eq)]
pub enum RulesError {
    /// No character or entity with this id is in the world.
    EntityNotFound(EntityId),
    /// More LUCK was committed than the character has left.
    InsufficientLuck { requested: u8, available: u8 },
    /// The action needs a netrun in progress and there is none.
    NoActiveNetrun,
    /// The action needs a netrun in progress and there is none.
    NetrunNotActive,
    /// The NET Action budget of this Turn is spent.
    NoNetActionsRemaining,
    /// The current floor is not of the kind the action works on.
    WrongFloorType { expected: &'static str, found: &'static str },
    /// The targeted floor is not the one the Netrunner stands on.
    NotAControlNode { floor_idx: usize },
    /// Demons cannot be Slid away from.
    CannotSlideDemon,
    /// Slide was already attempted this Turn.
    SlideAlreadyUsedThisTurn,
    /// The Slide target is not a Black ICE floor.
    SlideTargetNotBlackIce { floor_idx: usize },
    /// A Virus can only be left from the bottom floor.
    NotOnBottomFloor { current_floor: usize, bottom_floor: usize },
    /// A catalog entry could not be found or loaded.
    CatalogLoadFailed { path: String, source: String },
    /// No program with this slug is in the catalog.
    ProgramNotFound(ProgramId),
    /// The program is of the wrong class for this activation.
    ProgramWrongClass { program: ProgramId, expected: &'static str, got: String },
    /// The program is of the wrong class for an attack.
    WrongProgramClass { program: ProgramId, expected: &'static str, got: String, found: String },
}

} // verus!

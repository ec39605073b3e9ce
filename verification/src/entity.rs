//! The occupant record stored at an occupied cell: an opaque handle to an
//! externally-owned object, paired with that object's facing.

use vstd::prelude::*;

use crate::rotation::Rotation;

verus! {

/// An opaque, copyable identifier for an object owned by the host runtime:
/// an index and a generation. The grid records identities only; it never
/// owns the objects they refer to, nor assumes anything of their lifetime.
#[derive(Debug, Copy, Clone, PartialEq, Eq, Structural, Hash)]
pub struct EntityId {
    pub index: u32,
    pub generation: u32,
}

impl EntityId {
    /// The designated "no object" value of the identifier space, used where
    /// a record must carry an identity that names nothing.
    pub open spec fn spec_placeholder() -> EntityId {
        EntityId { index: 0xFFFF_FFFFu32, generation: 0xFFFF_FFFFu32 }
    }

    /// Construct an identifier from its index and generation.
    pub fn new(index: u32, generation: u32) -> (r: Self)
        ensures
            r == (EntityId { index, generation }),
    {
        EntityId { index, generation }
    }

    /// The sentinel identifier that stands for no object.
    pub fn placeholder() -> (r: Self)
        ensures
            r == EntityId::spec_placeholder(),
    {
        EntityId { index: 0xFFFF_FFFF, generation: 0xFFFF_FFFF }
    }
}

/// The record stored at an occupied cell: the occupying object's identity
/// and its facing. Equality is by both fields.
#[derive(Debug, Copy, Clone, PartialEq, Eq, Structural, Hash)]
pub struct GridEntity {
    pub entity: EntityId,
    pub rotation: Rotation,
}

impl GridEntity {
    /// Pair an object identity with its facing.
    pub fn new(entity: EntityId, rotation: Rotation) -> (r: Self)
        ensures
            r == (GridEntity { entity, rotation }),
    {
        GridEntity { entity, rotation }
    }

    /// The record holding the sentinel identity and the default facing:
    /// a fixed value, convenient where the identity is irrelevant.
    pub fn test() -> (r: Self)
        ensures
            r == (GridEntity { entity: EntityId::spec_placeholder(), rotation: Rotation::Up }),
    {
        GridEntity { entity: EntityId::placeholder(), rotation: Rotation::default() }
    }
}

} // verus!

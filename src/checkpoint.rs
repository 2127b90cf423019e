use vstd::prelude::*;
use crate::geometry::Point;
use crate::limbs::LostLimbs;

verus! {

/// The uuid crate's identifier, carried opaquely.
#[verifier::external_type_specification]
#[verifier::external_body]
pub struct ExUuid(uuid::Uuid);

/// Relies on uuid::Uuid::as_u128: the identifier's 128 bits, read as a
/// big-endian number.
pub assume_specification[ uuid::Uuid::as_u128 ](u: &uuid::Uuid) -> u128;

/// Identity of a level object: the bits of its unique identifier.
#[derive(Debug, Clone, Copy, PartialEq, Eq, Structural)]
pub struct EntityId(pub u128);

impl EntityId {
    /// The identity that the level writes as `u`.
    pub fn from_uuid(u: &uuid::Uuid) -> (r: EntityId) {
        EntityId(u.as_u128())
    }
}

/// The active checkpoint and the lost limbs captured when it was activated.
#[derive(Debug, Clone, Copy, PartialEq, Eq, Structural)]
pub struct ActiveCheckpoint {
    pub id: EntityId,
    pub lost_limbs: LostLimbs,
}

/// A checkpoint of the level.
#[derive(Debug, Clone, Copy, PartialEq, Eq, Structural)]
pub struct CheckpointData {
    pub id: EntityId,
    pub pos: Point,
}

} // verus!

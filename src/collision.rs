use vstd::prelude::*;

verus! {

/// Collision group bits.
pub struct ObjectGroup;

impl ObjectGroup {
    pub const PLAYER: u32 = 2;
    pub const WHEEL: u32 = 4;
    pub const WALL: u32 = 8;
    pub const CHECKPOINT: u32 = 16;
    pub const GOAL: u32 = 32;
}

/// The groups a collider belongs to and the groups it may interact with.
#[derive(Debug, Clone, Copy, PartialEq, Eq, Structural)]
pub struct CollisionGroups {
    pub memberships: u32,
    pub filters: u32,
}

/// Collision groups built from membership and filter bits.
pub fn coll_groups(members: u32, filters: u32) -> (r: CollisionGroups)
    ensures
        r.memberships == members,
        r.filters == filters,
{
    CollisionGroups { memberships: members, filters }
}

/// Kind of a level object.
#[derive(Debug, Clone, Copy, PartialEq, Eq, Structural)]
pub enum EntityType {
    Wall,
    Checkpoint,
    Goal,
    SpaceTutorial,
    ArrowTutorial,
    Arrow,
}

} // verus!

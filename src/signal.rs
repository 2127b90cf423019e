use vstd::prelude::*;
use crate::checkpoint::EntityId;
use crate::geometry::Point;

verus! {

/// A sound effect.
#[derive(Debug, Clone, Copy, PartialEq, Eq, Structural)]
pub enum Sfx {
    Jump,
    Clonk,
}

/// An outgoing signal for the collaborators that play sounds, light
/// checkpoints, move the camera and run the death sequence.
#[derive(Debug, Clone, Copy, PartialEq, Eq, Structural)]
pub enum Signal {
    PlaySound(Sfx),
    AccelerateEngine,
    CenterCamera(Point),
    ActivateCheckpoint(EntityId),
    DeactivateCheckpoint(EntityId),
    PlayerDeath,
}

} // verus!

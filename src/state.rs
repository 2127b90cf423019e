use vstd::prelude::*;

verus! {

/// Which phase of play is active. Exactly one is, by construction.
#[derive(Debug, Clone, Copy, PartialEq, Eq, Structural)]
pub enum GameState {
    Playing,
    Victory,
    Death,
    Pause,
    Editing,
}

/// Something that may move the game to another phase.
#[derive(Debug, Clone, Copy, PartialEq, Eq, Structural)]
pub enum StateEvent {
    /// The torso took a deadly hit.
    PlayerDeath,
    /// The player asked to respawn.
    Respawn,
    /// The torso reached the goal.
    GoalReached,
    /// Play starts again after a victory.
    Restart,
    /// The pause key or button.
    TogglePause,
    /// The level editor key.
    ToggleEditing,
}

/// The phase after `e` in phase `s`, or `None` where `e` does not apply.
pub open spec fn spec_next_state(s: GameState, e: StateEvent) -> Option<GameState> {
    match (s, e) {
        (GameState::Playing, StateEvent::PlayerDeath) => Some(GameState::Death),
        (GameState::Playing, StateEvent::Respawn) => Some(GameState::Playing),
        (GameState::Death, StateEvent::Respawn) => Some(GameState::Playing),
        (GameState::Playing, StateEvent::GoalReached) => Some(GameState::Victory),
        (GameState::Victory, StateEvent::Restart) => Some(GameState::Playing),
        (GameState::Playing, StateEvent::TogglePause) => Some(GameState::Pause),
        (GameState::Pause, StateEvent::TogglePause) => Some(GameState::Playing),
        (GameState::Playing, StateEvent::ToggleEditing) => Some(GameState::Editing),
        (GameState::Editing, StateEvent::ToggleEditing) => Some(GameState::Playing),
        _ => None,
    }
}

impl GameState {
    /// Whether the physics step runs in this phase: only while playing.
    pub open spec fn spec_physics_enabled(self) -> bool {
        self == GameState::Playing
    }

    /// Whether the physics step runs in this phase: only while playing.
    pub fn physics_enabled(&self) -> (r: bool)
        ensures
            r == self.spec_physics_enabled(),
    {
        match self {
            GameState::Playing => true,
            _ => false,
        }
    }

    /// The phase after `e`, or `None` where `e` does not apply here.
    pub fn next(&self, e: StateEvent) -> (r: Option<GameState>)
        ensures
            r == spec_next_state(*self, e),
    {
        match (self, e) {
            (GameState::Playing, StateEvent::PlayerDeath) => Some(GameState::Death),
            (GameState::Playing, StateEvent::Respawn) => Some(GameState::Playing),
            (GameState::Death, StateEvent::Respawn) => Some(GameState::Playing),
            (GameState::Playing, StateEvent::GoalReached) => Some(GameState::Victory),
            (GameState::Victory, StateEvent::Restart) => Some(GameState::Playing),
            (GameState::Playing, StateEvent::TogglePause) => Some(GameState::Pause),
            (GameState::Pause, StateEvent::TogglePause) => Some(GameState::Playing),
            (GameState::Playing, StateEvent::ToggleEditing) => Some(GameState::Editing),
            (GameState::Editing, StateEvent::ToggleEditing) => Some(GameState::Playing),
            _ => None,
        }
    }
}

} // verus!

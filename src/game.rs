use vstd::prelude::*;
use crate::checkpoint::{ActiveCheckpoint, CheckpointData, EntityId};
use crate::config::{ConfigError, GameConfig};
use crate::controller::{calc_forces, spec_forces, ControlInput, ForceCommand};
use crate::damage::{
    death_count, lemma_dead_rig_silent, lemma_death_counted, lemma_death_raised_once,
    lemma_wreck_is_dead, monitor_damage_contacts,
    spec_damage_after, spec_wreck, wreck, ContactForceEvent,
};
use crate::geometry::{point_ok, Point, MAX_COORD, UNIT};
use crate::limbs::{lost_count, LostLimbs};
use crate::rig::{build_rig, spec_build_rig, Rig};
use crate::signal::Signal;
use crate::state::{spec_next_state, GameState, StateEvent};

verus! {

/// Height above a checkpoint at which the rig respawns.
pub const RESPAWN_CLEARANCE: i64 = UNIT;

/// The level as the game logic reads it: where the player starts and where
/// the checkpoints stand.
#[derive(Debug)]
pub struct LevelData {
    pub player_spawn: Point,
    pub checkpoints: Vec<CheckpointData>,
}

/// Why a game could not be set up.
#[derive(Debug, Clone, Copy, PartialEq, Eq, Structural)]
pub enum SetupError {
    Config(ConfigError),
    /// The player spawn or a checkpoint lies beyond [`MAX_COORD`].
    CoordinateOutOfRange,
    /// Two checkpoints share this identity.
    DuplicateCheckpoint(EntityId),
}

/// How play starts from the title screen.
#[derive(Debug, Clone, Copy, PartialEq, Eq, Structural)]
pub enum SpawnLevel {
    /// Forget the checkpoint, the lost limbs and the time, and start over.
    NewGame,
    /// Spawn at the active checkpoint, keeping the run's state.
    Continue,
}

impl LevelData {
    /// The spawn point and every checkpoint lie within bounds.
    pub open spec fn coords_wf(&self) -> bool {
        &&& point_ok(self.player_spawn)
        &&& forall|i: int|
            0 <= i < self.checkpoints@.len() ==> point_ok(#[trigger] self.checkpoints@[i].pos)
    }

    /// No two checkpoints share an identity.
    pub open spec fn ids_unique(&self) -> bool {
        forall|i: int, j: int|
            0 <= i < j < self.checkpoints@.len() ==> #[trigger] self.checkpoints@[i].id
                != #[trigger] self.checkpoints@[j].id
    }

    /// Coordinates within bounds and checkpoint identities unique.
    pub open spec fn wf(&self) -> bool {
        self.coords_wf() && self.ids_unique()
    }

    /// Whether the level has a checkpoint with identity `id`.
    pub open spec fn has_checkpoint(&self, id: EntityId) -> bool {
        exists|i: int| 0 <= i < self.checkpoints@.len() && #[trigger] self.checkpoints@[i].id == id
    }

    /// Position of the checkpoint with identity `id`, if the level has one.
    pub open spec fn spec_checkpoint_pos(&self, id: EntityId) -> Option<Point> {
        if self.has_checkpoint(id) {
            let i = choose|i: int|
                0 <= i < self.checkpoints@.len() && #[trigger] self.checkpoints@[i].id == id;
            Some(self.checkpoints@[i].pos)
        } else {
            None
        }
    }

    /// Position of the checkpoint with identity `id`, if the level has one.
    pub fn checkpoint_pos(&self, id: EntityId) -> (r: Option<Point>)
        requires
            self.wf(),
        ensures
            r == self.spec_checkpoint_pos(id),
    {
        let mut i: usize = 0;
        while i < self.checkpoints.len()
            invariant
                self.wf(),
                0 <= i <= self.checkpoints@.len(),
                forall|j: int| 0 <= j < i ==> #[trigger] self.checkpoints@[j].id != id,
            decreases self.checkpoints@.len() - i,
        {
            if self.checkpoints[i].id == id {
                proof {
                    let k = choose|k: int|
                        0 <= k < self.checkpoints@.len() && #[trigger] self.checkpoints@[k].id
                            == id;
                    assert(self.checkpoints@[i as int].id == id);
                    if k != i {
                        if k < i {
                            assert(self.checkpoints@[k].id != self.checkpoints@[i as int].id);
                        } else {
                            assert(self.checkpoints@[i as int].id != self.checkpoints@[k].id);
                        }
                    }
                }
                return Some(self.checkpoints[i].pos);
            }
            i += 1;
        }
        None
    }

    /// The first problem with the level, if any: coordinates are checked
    /// before identities.
    pub fn check(&self) -> (r: Result<(), SetupError>)
        ensures
            r is Ok <==> self.wf(),
            r matches Err(SetupError::CoordinateOutOfRange) <==> !self.coords_wf(),
            r matches Err(SetupError::DuplicateCheckpoint(id)) ==> self.coords_wf() && exists|
                i: int,
                j: int,
            |
                0 <= i < j < self.checkpoints@.len() && #[trigger] self.checkpoints@[i].id == id
                    && #[trigger] self.checkpoints@[j].id == id,
            r matches Err(e) ==> !(e matches SetupError::Config(_)),
    {
        if !coords_ok(self.player_spawn) {
            return Err(SetupError::CoordinateOutOfRange);
        }
        let n = self.checkpoints.len();
        let mut i: usize = 0;
        while i < n
            invariant
                n == self.checkpoints@.len(),
                0 <= i <= n,
                forall|j: int| 0 <= j < i ==> point_ok(#[trigger] self.checkpoints@[j].pos),
            decreases n - i,
        {
            if !coords_ok(self.checkpoints[i].pos) {
                return Err(SetupError::CoordinateOutOfRange);
            }
            i += 1;
        }
        let mut i: usize = 0;
        while i < n
            invariant
                n == self.checkpoints@.len(),
                0 <= i <= n,
                self.coords_wf(),
                forall|a: int, b: int|
                    0 <= a < b < n && a < i ==> #[trigger] self.checkpoints@[a].id
                        != #[trigger] self.checkpoints@[b].id,
            decreases n - i,
        {
            let mut j: usize = i + 1;
            while j < n
                invariant
                    n == self.checkpoints@.len(),
                    0 <= i < n,
                    i < j <= n,
                    self.coords_wf(),
                    forall|b: int| i < b < j ==> self.checkpoints@[i as int].id
                        != #[trigger] self.checkpoints@[b].id,
                decreases n - j,
            {
                if self.checkpoints[i].id == self.checkpoints[j].id {
                    assert(self.checkpoints@[i as int].id == self.checkpoints@[j as int].id);
                    return Err(SetupError::DuplicateCheckpoint(self.checkpoints[i].id));
                }
                j += 1;
            }
            i += 1;
        }
        Ok(())
    }
}

/// The state of a run that survives respawns, with the rig currently in
/// play: phase, lost limbs, active checkpoint, play time, and whether the
/// wheel touched ground at the last probe.
#[derive(Debug)]
pub struct Game {
    pub config: GameConfig,
    pub level: LevelData,
    pub state: GameState,
    pub lost_limbs: LostLimbs,
    pub active_checkpoint: Option<ActiveCheckpoint>,
    /// Play time in milliseconds, counted only while playing.
    pub elapsed_ms: u64,
    pub rig: Option<Rig>,
    pub grounded: bool,
}

/// Where the rig spawns: just above the active checkpoint, or at the
/// level's spawn point when no checkpoint of the level is active.
pub open spec fn spec_spawn_position(g: Game) -> Point {
    match g.active_checkpoint {
        Some(a) => match g.level.spec_checkpoint_pos(a.id) {
            Some(p) => Point { x: p.x, y: (p.y + RESPAWN_CLEARANCE) as i64 },
            None => g.level.player_spawn,
        },
        None => g.level.player_spawn,
    }
}

/// `g` with a fresh rig at the spawn position, built for its lost limbs,
/// and play running.
pub open spec fn spec_spawned(g: Game) -> Game {
    Game {
        state: GameState::Playing,
        rig: Some(spec_build_rig(spec_spawn_position(g), g.lost_limbs, g.config)),
        grounded: false,
        ..g
    }
}

/// `g` with the run forgotten: no checkpoint, no lost limbs, no play time.
pub open spec fn spec_reset(g: Game) -> Game {
    Game {
        active_checkpoint: None,
        lost_limbs: LostLimbs { left: false, right: false },
        elapsed_ms: 0,
        ..g
    }
}

/// `g` after play starts from the title screen.
pub open spec fn spec_spawn_level(g: Game, mode: SpawnLevel) -> Game {
    match mode {
        SpawnLevel::NewGame => spec_spawned(spec_reset(g)),
        SpawnLevel::Continue => spec_spawned(g),
    }
}

/// `g` after a respawn request: where respawning applies, the lost limbs
/// come back to the active checkpoint's snapshot (or to none lost without
/// one) and a fresh rig is built.
pub open spec fn spec_respawn(g: Game) -> Game {
    if spec_next_state(g.state, StateEvent::Respawn) is None {
        g
    } else {
        match g.active_checkpoint {
            Some(a) => spec_spawned(Game { lost_limbs: a.lost_limbs, ..g }),
            None => spec_spawned(
                Game { lost_limbs: LostLimbs { left: false, right: false }, ..g },
            ),
        }
    }
}

/// `g` after a batch of contacts: the damage rules run on the rig and the
/// lost limbs; when they kill the torso during play, the rig is wrecked and
/// the phase becomes death.
pub open spec fn spec_handle_contacts(g: Game, events: Seq<ContactForceEvent>) -> Game {
    match g.rig {
        Some(r) => {
            let d = spec_damage_after(r, g.lost_limbs, events, g.config);
            if r.torso.live && !d.0.torso.live && g.state == GameState::Playing {
                Game {
                    rig: Some(spec_wreck(d.0)),
                    lost_limbs: d.1,
                    state: GameState::Death,
                    ..g
                }
            } else {
                Game { rig: Some(d.0), lost_limbs: d.1, ..g }
            }
        },
        None => g,
    }
}

/// The signals of a batch of contacts.
pub open spec fn spec_contact_signals(g: Game, events: Seq<ContactForceEvent>) -> Seq<Signal> {
    match g.rig {
        Some(r) => spec_damage_after(r, g.lost_limbs, events, g.config).2,
        None => seq![],
    }
}

/// `g` after the torso touched checkpoint `id`: during play, a checkpoint
/// of the level other than the active one becomes active, with the current
/// lost limbs as its snapshot.
pub open spec fn spec_activate(g: Game, id: EntityId) -> (Game, Seq<Signal>) {
    if g.state != GameState::Playing || !g.level.has_checkpoint(id) {
        (g, seq![])
    } else {
        let now = Some(ActiveCheckpoint { id, lost_limbs: g.lost_limbs });
        match g.active_checkpoint {
            Some(a) => if a.id == id {
                (g, seq![])
            } else {
                (
                    Game { active_checkpoint: now, ..g },
                    seq![Signal::DeactivateCheckpoint(a.id), Signal::ActivateCheckpoint(id)],
                )
            },
            None => (Game { active_checkpoint: now, ..g }, seq![Signal::ActivateCheckpoint(id)]),
        }
    }
}

impl Game {
    /// A sound configuration and level.
    pub open spec fn wf(&self) -> bool {
        self.config.wf() && self.level.wf()
    }

    /// Sets up a game on `config` and `level`, refusing a configuration or
    /// level that is not sound. Play has not started: there is no rig yet.
    pub fn new(config: GameConfig, level: LevelData) -> (r: Result<Game, SetupError>)
        ensures
            r is Ok <==> config.wf() && level.wf(),
            r matches Err(SetupError::Config(_)) <==> !config.wf(),
            r matches Err(SetupError::Config(e)) ==> config.first_problem_from(0) == Some(e),
            r matches Err(SetupError::CoordinateOutOfRange) <==> config.wf() && !level.coords_wf(),
            r matches Err(SetupError::DuplicateCheckpoint(_)) <==> config.wf() && level.coords_wf()
                && !level.ids_unique(),
            r matches Ok(g) ==> g.wf() && g.config == config && g.level == level && g.state
                == GameState::Playing && g.lost_limbs == (LostLimbs { left: false, right: false })
                && g.active_checkpoint is None && g.elapsed_ms == 0 && g.rig is None && !g.grounded,
    {
        match config.validate() {
            Err(e) => {
                return Err(SetupError::Config(e));
            },
            Ok(()) => {},
        }
        match level.check() {
            Err(e) => {
                return Err(e);
            },
            Ok(()) => {},
        }
        Ok(
            Game {
                config,
                level,
                state: GameState::Playing,
                lost_limbs: LostLimbs::new(),
                active_checkpoint: None,
                elapsed_ms: 0,
                rig: None,
                grounded: false,
            },
        )
    }

    /// Where the rig spawns: just above the active checkpoint, or at the
    /// level's spawn point.
    pub fn spawn_position(&self) -> (r: Point)
        requires
            self.wf(),
        ensures
            r == spec_spawn_position(*self),
    {
        match &self.active_checkpoint {
            Some(a) => match self.level.checkpoint_pos(a.id) {
                Some(p) => Point { x: p.x, y: p.y + RESPAWN_CLEARANCE },
                None => self.level.player_spawn,
            },
            None => self.level.player_spawn,
        }
    }

    /// Replaces the rig by a fresh one at the spawn position, and plays.
    fn spawn_player(&mut self)
        requires
            old(self).wf(),
        ensures
            *final(self) == spec_spawned(*old(self)),
    {
        let at = self.spawn_position();
        self.rig = Some(build_rig(at, &self.lost_limbs, &self.config));
        self.state = GameState::Playing;
        self.grounded = false;
    }

    /// Starts play from the title screen: a new game first forgets the
    /// active checkpoint, the lost limbs and the play time.
    pub fn spawn_level(&mut self, mode: SpawnLevel)
        requires
            old(self).wf(),
        ensures
            *final(self) == spec_spawn_level(*old(self), mode),
            final(self).wf(),
    {
        match mode {
            SpawnLevel::NewGame => {
                self.active_checkpoint = None;
                self.lost_limbs.reset();
                self.elapsed_ms = 0;
            },
            SpawnLevel::Continue => {},
        }
        self.spawn_player();
    }

    /// Respawns the player, if the phase allows it: the old rig is dropped
    /// whole, the lost limbs return to the active checkpoint's snapshot
    /// (or to none lost without one), and a new rig is built above that
    /// checkpoint (or at the level's spawn point). Returns whether it
    /// respawned.
    pub fn on_respawn(&mut self) -> (r: bool)
        requires
            old(self).wf(),
        ensures
            *final(self) == spec_respawn(*old(self)),
            r == spec_next_state(old(self).state, StateEvent::Respawn) is Some,
            final(self).wf(),
    {
        if self.state.next(StateEvent::Respawn).is_none() {
            return false;
        }
        match &self.active_checkpoint {
            Some(a) => {
                self.lost_limbs = a.lost_limbs;
            },
            None => {
                self.lost_limbs.reset();
            },
        }
        self.spawn_player();
        true
    }

    /// Handles the torso touching checkpoint `id`, and returns the signals
    /// for the checkpoints' lights: the previous one goes out before the new
    /// one lights.
    pub fn check_player_collision(&mut self, id: EntityId) -> (r: Vec<Signal>)
        requires
            old(self).wf(),
        ensures
            *final(self) == spec_activate(*old(self), id).0,
            r@ == spec_activate(*old(self), id).1,
            final(self).wf(),
    {
        if self.state != GameState::Playing || self.level.checkpoint_pos(id).is_none() {
            return Vec::new();
        }
        let now = Some(ActiveCheckpoint { id, lost_limbs: self.lost_limbs });
        match self.active_checkpoint {
            Some(a) => {
                if a.id == id {
                    Vec::new()
                } else {
                    self.active_checkpoint = now;
                    let mut r: Vec<Signal> = Vec::new();
                    r.push(Signal::DeactivateCheckpoint(a.id));
                    r.push(Signal::ActivateCheckpoint(id));
                    assert(r@ =~= seq![Signal::DeactivateCheckpoint(a.id), Signal::ActivateCheckpoint(id)]);
                    r
                }
            },
            None => {
                self.active_checkpoint = now;
                let mut r: Vec<Signal> = Vec::new();
                r.push(Signal::ActivateCheckpoint(id));
                assert(r@ =~= seq![Signal::ActivateCheckpoint(id)]);
                r
            },
        }
    }

    /// Records the result of the ground probe.
    pub fn check_touch_ground(&mut self, touching: bool)
        ensures
            *final(self) == (Game { grounded: touching, ..*old(self) }),
    {
        self.grounded = touching;
    }

    /// The forces of this tick, while playing with a rig.
    pub fn calc_forces(&self, input: &ControlInput, tube_angvel: i64) -> (r: Option<ForceCommand>)
        requires
            self.wf(),
        ensures
            r == (if self.state == GameState::Playing && self.rig is Some {
                Some(spec_forces(*input, self.grounded, tube_angvel, self.config))
            } else {
                None
            }),
    {
        if self.state == GameState::Playing && self.rig.is_some() {
            Some(calc_forces(input, self.grounded, tube_angvel, &self.config))
        } else {
            None
        }
    }

    /// Drains one tick's contacts into the damage rules; a torso killed
    /// during play wrecks the rig and moves to the death phase once every
    /// contact has been handled. Returns the signals raised.
    pub fn monitor_damage_contacts(&mut self, events: &Vec<ContactForceEvent>) -> (r: Vec<
        Signal,
    >)
        requires
            old(self).wf(),
        ensures
            *final(self) == spec_handle_contacts(*old(self), events@),
            r@ == spec_contact_signals(*old(self), events@),
            final(self).wf(),
    {
        match self.rig {
            Some(r0) => {
                let mut rig = r0;
                let signals = monitor_damage_contacts(
                    &mut rig,
                    &mut self.lost_limbs,
                    events,
                    &self.config,
                );
                if r0.torso.live && !rig.torso.live && self.state == GameState::Playing {
                    wreck(&mut rig);
                    self.state = GameState::Death;
                }
                self.rig = Some(rig);
                signals
            },
            None => Vec::new(),
        }
    }

    /// Moves to the phase that `e` leads to, where it applies; the rig and
    /// the run are kept. Returns whether the phase changed.
    pub fn transition(&mut self, e: StateEvent) -> (r: bool)
        ensures
            r == spec_next_state(old(self).state, e) is Some,
            *final(self) == (match spec_next_state(old(self).state, e) {
                Some(t) => Game { state: t, ..*old(self) },
                None => *old(self),
            }),
    {
        match self.state.next(e) {
            Some(t) => {
                self.state = t;
                true
            },
            None => false,
        }
    }

    /// The camera's new target while playing with a rig: the wheel's
    /// position.
    pub fn center_camera(&self, wheel_position: Point) -> (r: Option<Signal>)
        ensures
            r == (if self.state == GameState::Playing && self.rig is Some {
                Some(Signal::CenterCamera(wheel_position))
            } else {
                None
            }),
    {
        if self.state == GameState::Playing && self.rig.is_some() {
            Some(Signal::CenterCamera(wheel_position))
        } else {
            None
        }
    }

    /// Whether the physics step runs: only while playing.
    pub fn physics_enabled(&self) -> (r: bool)
        ensures
            r == self.state.spec_physics_enabled(),
    {
        self.state.physics_enabled()
    }

    /// Adds `delta_ms` to the play time while playing; the time saturates
    /// at the largest value it can hold.
    pub fn update_game_time(&mut self, delta_ms: u64)
        ensures
            *final(self) == (if old(self).state == GameState::Playing {
                Game {
                    elapsed_ms: if old(self).elapsed_ms + delta_ms > u64::MAX {
                        u64::MAX
                    } else {
                        (old(self).elapsed_ms + delta_ms) as u64
                    },
                    ..*old(self)
                }
            } else {
                *old(self)
            }),
    {
        if self.state == GameState::Playing {
            if delta_ms > u64::MAX - self.elapsed_ms {
                self.elapsed_ms = u64::MAX;
            } else {
                self.elapsed_ms = self.elapsed_ms + delta_ms;
            }
        }
    }
}

/// When a batch of contacts during play raises a death, the death is raised
/// once, the phase becomes death and the physics step stops.
pub proof fn lemma_torso_death_stops_play(g: Game, events: Seq<ContactForceEvent>)
    requires
        g.state == GameState::Playing,
        spec_contact_signals(g, events).contains(Signal::PlayerDeath),
    ensures
        death_count(spec_contact_signals(g, events)) == 1,
        spec_handle_contacts(g, events).state == GameState::Death,
        !spec_handle_contacts(g, events).state.spec_physics_enabled(),
{
    let r = g.rig.unwrap();
    lemma_death_counted(spec_contact_signals(g, events));
    lemma_death_raised_once(r, g.lost_limbs, events, g.config);
}

/// After a batch that kills the torso during play, no later batch changes
/// the game or raises any signal: no second death and no impact sound.
pub proof fn lemma_no_signal_after_death(
    g: Game,
    events: Seq<ContactForceEvent>,
    later: Seq<ContactForceEvent>,
)
    requires
        g.state == GameState::Playing,
        spec_contact_signals(g, events).contains(Signal::PlayerDeath),
    ensures
        spec_contact_signals(spec_handle_contacts(g, events), later) == Seq::<Signal>::empty(),
        spec_handle_contacts(spec_handle_contacts(g, events), later) == spec_handle_contacts(
            g,
            events,
        ),
{
    lemma_torso_death_stops_play(g, events);
    let r = g.rig.unwrap();
    lemma_death_raised_once(r, g.lost_limbs, events, g.config);
    let d = spec_damage_after(r, g.lost_limbs, events, g.config);
    let after = spec_handle_contacts(g, events);
    lemma_wreck_is_dead(d.0);
    lemma_dead_rig_silent(spec_wreck(d.0), after.lost_limbs, later, after.config);
}

/// A respawn builds the rig for the lost limbs of the active checkpoint's
/// snapshot, or for no lost limbs when no checkpoint is active.
pub proof fn lemma_respawn_restores_snapshot(g: Game)
    requires
        spec_next_state(g.state, StateEvent::Respawn) is Some,
    ensures
        spec_respawn(g).lost_limbs == match g.active_checkpoint {
            Some(a) => a.lost_limbs,
            None => LostLimbs { left: false, right: false },
        },
        spec_respawn(g).rig == Some(
            spec_build_rig(spec_spawn_position(g), spec_respawn(g).lost_limbs, g.config),
        ),
        spec_respawn(g).rig.unwrap().arm_count() == 2 - lost_count(spec_respawn(g).lost_limbs),
        spec_respawn(g).state == GameState::Playing,
{
}

/// Touching a checkpoint other than the active one during play puts out the
/// active one, then lights the new one, which becomes the only active
/// checkpoint, holding the current lost limbs.
pub proof fn lemma_checkpoint_switch(g: Game, id: EntityId)
    requires
        g.state == GameState::Playing,
        g.level.has_checkpoint(id),
        g.active_checkpoint matches Some(a) && a.id != id,
    ensures
        spec_activate(g, id).1 == seq![
            Signal::DeactivateCheckpoint(g.active_checkpoint.unwrap().id),
            Signal::ActivateCheckpoint(id),
        ],
        spec_activate(g, id).0.active_checkpoint == Some(
            ActiveCheckpoint { id, lost_limbs: g.lost_limbs },
        ),
        spec_activate(g, id).0 == (Game {
            active_checkpoint: Some(ActiveCheckpoint { id, lost_limbs: g.lost_limbs }),
            ..g
        }),
{
}

/// A new game forgets the active checkpoint and the lost limbs, whatever
/// they were, and builds a rig with both arms at the level's spawn point.
pub proof fn lemma_new_game_forgets_run(g: Game)
    ensures
        spec_spawn_level(g, SpawnLevel::NewGame).active_checkpoint is None,
        spec_spawn_level(g, SpawnLevel::NewGame).lost_limbs == (LostLimbs {
            left: false,
            right: false,
        }),
        spec_spawn_level(g, SpawnLevel::NewGame).elapsed_ms == 0,
        spec_spawn_level(g, SpawnLevel::NewGame).rig == Some(
            spec_build_rig(
                g.level.player_spawn,
                LostLimbs { left: false, right: false },
                g.config,
            ),
        ),
{
}

/// Whether both coordinates of `p` are within bounds.
fn coords_ok(p: Point) -> (r: bool)
    ensures
        r == point_ok(p),
{
    -MAX_COORD <= p.x && p.x <= MAX_COORD && -MAX_COORD <= p.y && p.y <= MAX_COORD
}

} // verus!

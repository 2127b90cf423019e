use car_loop::checkpoint::{CheckpointData, EntityId};
use car_loop::collision::{coll_groups, EntityType, ObjectGroup};
use car_loop::config::{
    ArmConfig, ArmsConfig, ConfigError, ConfigField, GameConfig, HeadConfig, PointConfig,
    SocketConfig, TorsoConfig, TubeConfig, WheelConfig, MAX_TUNABLE,
};
use car_loop::damage::{monitor_damage_contacts, ContactForceEvent};
use car_loop::game::{Game, LevelData, SetupError, SpawnLevel};
use car_loop::geometry::{point, Point};
use car_loop::limbs::{Arm, LostLimbs};
use car_loop::rig::{build_rig, SegmentKind};
use car_loop::signal::{Sfx, Signal};
use car_loop::state::{GameState, StateEvent};

fn sample_config() -> GameConfig {
    GameConfig {
        wheel: WheelConfig { torque_multiplier: 10, linear_damping: 100, angular_damping: 200 },
        tube: TubeConfig {
            torque_multiplier: 4,
            linear_damping: 50,
            angular_damping: 60,
            mass: 500,
            length: 3000,
            max_angular_velocity: 8000,
        },
        torso: TorsoConfig { width: 1200, height: 1600, mass: 2000, gravity_scale: 1000, death_force: 50_000 },
        arms: ArmsConfig {
            detach_force: 20_000,
            length: 1000,
            width: 200,
            left: ArmConfig { socket: SocketConfig { point: PointConfig { x: -600, y: 400 } } },
            right: ArmConfig { socket: SocketConfig { point: PointConfig { x: 600, y: 400 } } },
            mass: 100,
            angular_damping: 30,
        },
        head: HeadConfig { x: 0, y: 1100, width: 900, height: 900 },
        jump_y_speed: 7000,
    }
}

fn id(n: u128) -> EntityId {
    EntityId(n)
}

fn sample_level() -> LevelData {
    LevelData {
        player_spawn: point(0, 0),
        checkpoints: vec![
            CheckpointData { id: id(11), pos: point(40_000, 2_000) },
            CheckpointData { id: id(22), pos: point(90_000, -1_000) },
        ],
    }
}

fn started_game() -> Game {
    let mut g = Game::new(sample_config(), sample_level()).unwrap();
    g.spawn_level(SpawnLevel::NewGame);
    g
}

fn hit(first: Option<SegmentKind>, second: Option<SegmentKind>, force: i64) -> ContactForceEvent {
    ContactForceEvent { first, second, max_force: force }
}

#[test]
fn torso_death_fires_once_and_stops_physics() {
    let mut g = started_game();
    assert_eq!(g.state, GameState::Playing);
    assert!(g.physics_enabled());
    let events = vec![
        hit(Some(SegmentKind::Torso), None, 50_001),
        hit(None, Some(SegmentKind::Torso), 90_000),
    ];
    let signals = g.monitor_damage_contacts(&events);
    let deaths = signals.iter().filter(|s| **s == Signal::PlayerDeath).count();
    assert_eq!(deaths, 1);
    assert_eq!(
        signals,
        vec![Signal::PlaySound(Sfx::Clonk), Signal::PlayerDeath]
    );
    assert_eq!(g.state, GameState::Death);
    assert!(!g.physics_enabled());
    let rig = g.rig.unwrap();
    assert!(!rig.torso.live);
    assert!(rig.joints().is_empty());
    assert_eq!(rig.live_arms(), 0);
    assert!(!rig.head_attached);
}

#[test]
fn torso_hit_at_death_force_survives() {
    let mut g = started_game();
    let signals = g.monitor_damage_contacts(&vec![hit(Some(SegmentKind::Torso), None, 50_000)]);
    assert_eq!(signals, vec![Signal::PlaySound(Sfx::Clonk)]);
    assert_eq!(g.state, GameState::Playing);
    assert!(g.rig.unwrap().torso.live);
}

#[test]
fn arm_hit_just_below_detach_force_keeps_arm() {
    let mut g = started_game();
    let signals =
        g.monitor_damage_contacts(&vec![hit(None, Some(SegmentKind::Arm(Arm::Left)), 19_999)]);
    assert_eq!(signals, vec![Signal::PlaySound(Sfx::Clonk)]);
    let rig = g.rig.unwrap();
    assert_eq!(rig.live_arms(), 2);
    assert!(rig.left_arm.unwrap().joint.is_some());
    assert_eq!(g.lost_limbs, LostLimbs { left: false, right: false });
}

#[test]
fn quiet_hits_make_no_sound() {
    let mut g = started_game();
    let signals = g.monitor_damage_contacts(&vec![
        hit(Some(SegmentKind::Arm(Arm::Right)), None, 1_000),
        hit(Some(SegmentKind::Wheel), Some(SegmentKind::Tube), 900_000),
        hit(None, None, 900_000),
    ]);
    assert!(signals.is_empty());
    assert_eq!(g.rig.unwrap().live_arms(), 2);
}

#[test]
fn detached_arm_never_detaches_again() {
    let c = sample_config();
    let mut rig = build_rig(point(0, 0), &LostLimbs::new(), &c);
    let mut lost = LostLimbs::new();
    let first = monitor_damage_contacts(
        &mut rig,
        &mut lost,
        &vec![hit(Some(SegmentKind::Arm(Arm::Right)), Some(SegmentKind::Torso), 20_001)],
        &c,
    );
    assert_eq!(first, vec![Signal::PlaySound(Sfx::Clonk)]);
    assert_eq!(lost, LostLimbs { left: false, right: true });
    let right = rig.right_arm.unwrap();
    assert!(!right.live);
    assert!(right.joint.is_none());
    assert!(rig.torso.live);
    assert_eq!(rig.joints().len(), 3);
    let before = rig;
    let again = monitor_damage_contacts(
        &mut rig,
        &mut lost,
        &vec![hit(Some(SegmentKind::Arm(Arm::Right)), None, 900_000)],
        &c,
    );
    assert!(again.is_empty());
    assert_eq!(rig, before);
    assert_eq!(lost, LostLimbs { left: false, right: true });
}

#[test]
fn arm_takes_the_hit_before_torso() {
    let c = sample_config();
    let mut rig = build_rig(point(0, 0), &LostLimbs::new(), &c);
    let mut lost = LostLimbs::new();
    let s = monitor_damage_contacts(
        &mut rig,
        &mut lost,
        &vec![hit(Some(SegmentKind::Torso), Some(SegmentKind::Arm(Arm::Left)), 60_000)],
        &c,
    );
    assert_eq!(s, vec![Signal::PlaySound(Sfx::Clonk)]);
    assert!(rig.torso.live);
    assert!(lost.left);
}

#[test]
fn respawn_restores_checkpoint_snapshot() {
    let mut g = started_game();
    let s = g.check_player_collision(id(11));
    assert_eq!(s, vec![Signal::ActivateCheckpoint(id(11))]);
    g.monitor_damage_contacts(&vec![hit(Some(SegmentKind::Arm(Arm::Left)), None, 30_000)]);
    assert_eq!(g.lost_limbs, LostLimbs { left: true, right: false });
    g.monitor_damage_contacts(&vec![hit(Some(SegmentKind::Torso), None, 60_000)]);
    assert_eq!(g.state, GameState::Death);
    assert!(g.on_respawn());
    assert_eq!(g.state, GameState::Playing);
    assert_eq!(g.lost_limbs, LostLimbs { left: false, right: false });
    let rig = g.rig.unwrap();
    assert_eq!(rig.origin, Point { x: 40_000, y: 3_000 });
    assert_eq!(rig.live_arms(), 2);
    assert!(rig.torso.live);
}

#[test]
fn snapshot_keeps_limbs_lost_before_activation() {
    let mut g = started_game();
    g.monitor_damage_contacts(&vec![hit(Some(SegmentKind::Arm(Arm::Right)), None, 30_000)]);
    g.check_player_collision(id(22));
    assert!(g.on_respawn());
    assert_eq!(g.lost_limbs, LostLimbs { left: false, right: true });
    let rig = g.rig.unwrap();
    assert!(rig.right_arm.is_none());
    assert_eq!(rig.arms(), 1);
    assert_eq!(rig.origin, Point { x: 90_000, y: 0 });
}

#[test]
fn respawn_without_checkpoint_uses_level_spawn() {
    let mut g = started_game();
    g.monitor_damage_contacts(&vec![hit(Some(SegmentKind::Torso), None, 60_000)]);
    assert!(g.on_respawn());
    assert!(g.active_checkpoint.is_none());
    assert_eq!(g.lost_limbs, LostLimbs { left: false, right: false });
    let rig = g.rig.unwrap();
    assert_eq!(rig.origin, Point { x: 0, y: 0 });
    assert_eq!(rig.arms(), 2);
}

#[test]
fn respawn_is_refused_outside_play_and_death() {
    let mut g = started_game();
    assert!(g.transition(StateEvent::TogglePause));
    assert!(!g.on_respawn());
    assert_eq!(g.state, GameState::Pause);
}

#[test]
fn switching_checkpoints_swaps_exactly_one() {
    let mut g = started_game();
    assert_eq!(g.check_player_collision(id(11)), vec![Signal::ActivateCheckpoint(id(11))]);
    assert!(g.check_player_collision(id(11)).is_empty());
    let s = g.check_player_collision(id(22));
    assert_eq!(
        s,
        vec![Signal::DeactivateCheckpoint(id(11)), Signal::ActivateCheckpoint(id(22))]
    );
    assert_eq!(g.active_checkpoint.unwrap().id, id(22));
    assert!(g.check_player_collision(id(33)).is_empty());
    assert_eq!(g.active_checkpoint.unwrap().id, id(22));
}

#[test]
fn new_game_after_death_forgets_run() {
    let mut g = started_game();
    g.check_player_collision(id(11));
    g.monitor_damage_contacts(&vec![hit(Some(SegmentKind::Arm(Arm::Left)), None, 30_000)]);
    g.check_player_collision(id(22));
    g.update_game_time(12_345);
    g.monitor_damage_contacts(&vec![hit(Some(SegmentKind::Torso), None, 60_000)]);
    assert_eq!(g.state, GameState::Death);
    assert_eq!(g.lost_limbs, LostLimbs { left: true, right: false });
    assert!(g.active_checkpoint.is_some());
    g.spawn_level(SpawnLevel::NewGame);
    assert_eq!(g.lost_limbs, LostLimbs { left: false, right: false });
    assert!(g.active_checkpoint.is_none());
    assert_eq!(g.elapsed_ms, 0);
    assert_eq!(g.state, GameState::Playing);
    let rig = g.rig.unwrap();
    assert_eq!(rig.origin, Point { x: 0, y: 0 });
    assert_eq!(rig.live_arms(), 2);
}

#[test]
fn continue_spawns_at_active_checkpoint() {
    let mut g = started_game();
    g.check_player_collision(id(22));
    g.update_game_time(500);
    g.spawn_level(SpawnLevel::Continue);
    assert_eq!(g.rig.unwrap().origin, Point { x: 90_000, y: 0 });
    assert_eq!(g.elapsed_ms, 500);
    assert_eq!(g.spawn_position(), Point { x: 90_000, y: 0 });
}

#[test]
fn play_time_counts_only_while_playing() {
    let mut g = started_game();
    g.update_game_time(1_500);
    assert_eq!(g.elapsed_ms, 1_500);
    g.transition(StateEvent::TogglePause);
    g.update_game_time(9_000);
    assert_eq!(g.elapsed_ms, 1_500);
    g.transition(StateEvent::TogglePause);
    g.elapsed_ms = u64::MAX - 1;
    g.update_game_time(10);
    assert_eq!(g.elapsed_ms, u64::MAX);
}

#[test]
fn phase_transitions_follow_the_table() {
    let mut g = started_game();
    assert!(!g.transition(StateEvent::Restart));
    assert!(g.transition(StateEvent::GoalReached));
    assert_eq!(g.state, GameState::Victory);
    assert!(!g.physics_enabled());
    assert!(!g.transition(StateEvent::TogglePause));
    assert!(g.transition(StateEvent::Restart));
    assert_eq!(g.state, GameState::Playing);
    assert!(g.transition(StateEvent::ToggleEditing));
    assert_eq!(g.state, GameState::Editing);
    assert!(!g.physics_enabled());
    assert!(g.transition(StateEvent::ToggleEditing));
    assert!(g.physics_enabled());
    assert_eq!(GameState::Death.next(StateEvent::Respawn), Some(GameState::Playing));
    assert_eq!(GameState::Pause.next(StateEvent::PlayerDeath), None);
}

#[test]
fn checkpoints_ignored_outside_play() {
    let mut g = started_game();
    g.transition(StateEvent::TogglePause);
    assert!(g.check_player_collision(id(11)).is_empty());
    assert!(g.active_checkpoint.is_none());
}

#[test]
fn forces_only_while_playing_with_rig() {
    let c = sample_config();
    let mut g = Game::new(c, sample_level()).unwrap();
    let input = car_loop::controller::ControlInput { left: false, right: true, jump_just_pressed: true };
    assert!(g.calc_forces(&input, 0).is_none());
    g.spawn_level(SpawnLevel::NewGame);
    g.check_touch_ground(true);
    let f = g.calc_forces(&input, 0).unwrap();
    assert_eq!(f.wheel_torque, 10);
    assert_eq!(f.jump_speed, 7000);
    g.transition(StateEvent::TogglePause);
    assert!(g.calc_forces(&input, 0).is_none());
}

#[test]
fn config_errors_name_the_first_bad_tunable() {
    let mut c = sample_config();
    c.tube.length = 0;
    assert_eq!(c.validate(), Err(ConfigError::NotPositive(ConfigField::TubeLength)));
    c.wheel.angular_damping = -1;
    assert_eq!(c.validate(), Err(ConfigError::Negative(ConfigField::WheelAngularDamping)));
    c.wheel.torque_multiplier = MAX_TUNABLE + 1;
    assert_eq!(c.validate(), Err(ConfigError::OutOfRange(ConfigField::WheelTorqueMultiplier)));
    let mut d = sample_config();
    d.torso.gravity_scale = -5;
    d.arms.left.socket.point.x = -MAX_TUNABLE;
    assert_eq!(d.validate(), Ok(()));
    d.jump_y_speed = -1;
    assert_eq!(d.validate(), Err(ConfigError::Negative(ConfigField::JumpYSpeed)));
    assert_eq!(
        Game::new(d, sample_level()).err(),
        Some(SetupError::Config(ConfigError::Negative(ConfigField::JumpYSpeed)))
    );
}

#[test]
fn level_errors_are_reported() {
    let dup = LevelData {
        player_spawn: point(0, 0),
        checkpoints: vec![
            CheckpointData { id: id(5), pos: point(1, 1) },
            CheckpointData { id: id(6), pos: point(2, 2) },
            CheckpointData { id: id(5), pos: point(3, 3) },
        ],
    };
    assert_eq!(dup.check(), Err(SetupError::DuplicateCheckpoint(id(5))));
    let far = LevelData {
        player_spawn: point(0, i64::MAX),
        checkpoints: vec![],
    };
    assert_eq!(far.check(), Err(SetupError::CoordinateOutOfRange));
    assert_eq!(
        Game::new(sample_config(), far).err(),
        Some(SetupError::CoordinateOutOfRange)
    );
    assert_eq!(sample_level().check(), Ok(()));
    assert_eq!(sample_level().checkpoint_pos(id(22)), Some(Point { x: 90_000, y: -1_000 }));
    assert_eq!(sample_level().checkpoint_pos(id(7)), None);
}

#[test]
fn entity_id_carries_uuid_bits() {
    let u = uuid::Uuid::from_u128(0x0123_4567_89ab_cdef_0011_2233_4455_6677);
    assert_eq!(EntityId::from_uuid(&u), EntityId(0x0123_4567_89ab_cdef_0011_2233_4455_6677));
    assert_ne!(EntityId::from_uuid(&uuid::Uuid::nil()), EntityId::from_uuid(&u));
}

#[test]
fn collision_groups_keep_bits() {
    let g = coll_groups(ObjectGroup::PLAYER | ObjectGroup::WHEEL, ObjectGroup::WALL);
    assert_eq!(g.memberships, 6);
    assert_eq!(g.filters, 8);
    assert_eq!(ObjectGroup::CHECKPOINT, 16);
    assert_eq!(ObjectGroup::GOAL, 32);
    assert_ne!(EntityType::Wall, EntityType::Goal);
}

#[test]
fn camera_follows_wheel_only_while_playing() {
    let mut g = Game::new(sample_config(), sample_level()).unwrap();
    assert_eq!(g.center_camera(point(1, 2)), None);
    g.spawn_level(SpawnLevel::NewGame);
    assert_eq!(g.center_camera(point(1, 2)), Some(Signal::CenterCamera(Point { x: 1, y: 2 })));
    g.monitor_damage_contacts(&vec![hit(Some(SegmentKind::Torso), None, 60_000)]);
    assert_eq!(g.center_camera(point(1, 2)), None);
}

#[test]
fn respawn_without_checkpoint_restores_both_arms() {
    let mut g = started_game();
    g.monitor_damage_contacts(&vec![hit(Some(SegmentKind::Arm(Arm::Left)), None, 30_000)]);
    assert_eq!(g.lost_limbs, LostLimbs { left: true, right: false });
    g.monitor_damage_contacts(&vec![hit(Some(SegmentKind::Torso), None, 60_000)]);
    assert!(g.on_respawn());
    assert_eq!(g.lost_limbs, LostLimbs { left: false, right: false });
    let rig = g.rig.unwrap();
    assert!(rig.left_arm.is_some());
    assert_eq!(rig.live_arms(), 2);
    assert_eq!(rig.origin, Point { x: 0, y: 0 });
}

#[test]
fn manual_respawn_during_play_without_checkpoint_resets_limbs() {
    let mut g = started_game();
    g.monitor_damage_contacts(&vec![hit(Some(SegmentKind::Arm(Arm::Right)), None, 30_000)]);
    assert_eq!(g.state, GameState::Playing);
    assert!(g.on_respawn());
    assert_eq!(g.lost_limbs, LostLimbs { left: false, right: false });
    assert_eq!(g.rig.unwrap().arms(), 2);
}

#[test]
fn nothing_happens_after_death() {
    let mut g = started_game();
    let first = g.monitor_damage_contacts(&vec![hit(Some(SegmentKind::Torso), None, 60_000)]);
    assert_eq!(first, vec![Signal::PlaySound(Sfx::Clonk), Signal::PlayerDeath]);
    let lost = g.lost_limbs;
    let later = g.monitor_damage_contacts(&vec![
        hit(Some(SegmentKind::Torso), None, 900_000),
        hit(None, Some(SegmentKind::Arm(Arm::Left)), 900_000),
    ]);
    assert!(later.is_empty());
    assert_eq!(g.lost_limbs, lost);
    assert_eq!(g.state, GameState::Death);
}

#[test]
fn second_collider_arm_detaches_and_keeps_other_side() {
    let mut g = started_game();
    let s = g.monitor_damage_contacts(&vec![hit(
        Some(SegmentKind::Wheel),
        Some(SegmentKind::Arm(Arm::Left)),
        20_001,
    )]);
    assert_eq!(s, vec![Signal::PlaySound(Sfx::Clonk)]);
    assert_eq!(g.lost_limbs, LostLimbs { left: true, right: false });
    let rig = g.rig.unwrap();
    let left = rig.left_arm.unwrap();
    assert!(!left.live);
    assert!(left.joint.is_none());
    assert!(rig.right_arm.unwrap().live);
    assert!(rig.torso.live);
}

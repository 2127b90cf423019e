use car_loop::config::{
    ArmConfig, ArmsConfig, GameConfig, HeadConfig, PointConfig, SocketConfig, TorsoConfig,
    TubeConfig, WheelConfig,
};
use car_loop::controller::{calc_forces, ground_probe, torque_direction, ControlInput, GROUND_PROBE_RADIUS};
use car_loop::geometry::{point, Point};
use car_loop::limbs::{Arm, LostLimbs};
use car_loop::rig::{build_rig, JointKind, SegmentKind, Shape};
use car_loop::signal::{Sfx, Signal};

fn sample_config() -> GameConfig {
    GameConfig {
        wheel: WheelConfig { torque_multiplier: 10, linear_damping: 100, angular_damping: 200 },
        tube: TubeConfig {
            torque_multiplier: 4,
            linear_damping: 50,
            angular_damping: 60,
            mass: 500,
            length: 3000,
            max_angular_velocity: 8000,
        },
        torso: TorsoConfig { width: 1200, height: 1600, mass: 2000, gravity_scale: 1000, death_force: 50_000 },
        arms: ArmsConfig {
            detach_force: 20_000,
            length: 1000,
            width: 200,
            left: ArmConfig { socket: SocketConfig { point: PointConfig { x: -600, y: 400 } } },
            right: ArmConfig { socket: SocketConfig { point: PointConfig { x: 600, y: 400 } } },
            mass: 100,
            angular_damping: 30,
        },
        head: HeadConfig { x: 0, y: 1100, width: 900, height: 900 },
        jump_y_speed: 7000,
    }
}

#[test]
fn limb_count_is_two_minus_lost() {
    let mut l = LostLimbs::new();
    assert_eq!(l.limb_count(), 2);
    l.mark_lost(Arm::Left);
    assert_eq!(l.limb_count(), 1);
    assert!(l.is_lost(Arm::Left));
    assert!(!l.is_lost(Arm::Right));
    l.mark_lost(Arm::Right);
    assert_eq!(l.limb_count(), 0);
    assert_eq!(LostLimbs { left: false, right: true }.limb_count(), 1);
    l.reset();
    assert_eq!(l, LostLimbs { left: false, right: false });
    assert_eq!(l.limb_count(), 2);
}

#[test]
fn spawn_at_origin_builds_full_rig() {
    let c = sample_config();
    assert!(c.validate().is_ok());
    let rig = build_rig(point(0, 0), &LostLimbs::new(), &c);
    assert_eq!(rig.origin, Point { x: 0, y: 0 });
    assert_eq!(rig.arms(), 2);
    assert_eq!(rig.live_arms(), 2);
    assert!(rig.torso.live);
    assert_eq!(rig.wheel.kind, SegmentKind::Wheel);
    assert_eq!(rig.tube.kind, SegmentKind::Tube);
    assert_eq!(rig.torso.kind, SegmentKind::Torso);
    assert_eq!(rig.head.kind, SegmentKind::Head);
    assert!(rig.head.body.is_none());
    assert!(rig.head_attached);
    assert_eq!(rig.joints().len(), 4);
}

#[test]
fn rig_geometry_comes_from_config() {
    let c = sample_config();
    let rig = build_rig(point(5000, -2000), &LostLimbs::new(), &c);
    assert_eq!(rig.wheel.shape, Shape::Ball { radius: 1000 });
    assert_eq!(rig.tube.shape, Shape::Cuboid { half_width: 100, half_height: 1500 });
    assert_eq!(rig.tube.offset, Point { x: 0, y: 1000 });
    let tj = rig.tube.joint.unwrap();
    assert_eq!(tj.kind, JointKind::Revolute);
    assert_eq!(tj.parent, SegmentKind::Wheel);
    assert_eq!(tj.child_anchor, Point { x: 0, y: -1500 });
    assert_eq!(rig.torso.offset, Point { x: 0, y: 2500 });
    assert_eq!(rig.torso.shape, Shape::Cuboid { half_width: 600, half_height: 800 });
    let sj = rig.torso.joint.unwrap();
    assert_eq!(sj.kind, JointKind::Fixed);
    assert_eq!(sj.parent_anchor, Point { x: 0, y: 1500 });
    assert_eq!(rig.torso.body.unwrap().mass, Some(2000));
    let left = rig.left_arm.unwrap();
    assert_eq!(left.kind, SegmentKind::Arm(Arm::Left));
    assert_eq!(left.offset, Point { x: -600, y: 400 });
    let lj = left.joint.unwrap();
    assert_eq!(lj.parent, SegmentKind::Torso);
    assert_eq!(lj.parent_anchor, Point { x: -600, y: 400 });
    assert_eq!(lj.child_anchor, Point { x: -500, y: 0 });
    assert_eq!(rig.right_arm.unwrap().offset, Point { x: 600, y: 400 });
    assert_eq!(rig.head.offset, Point { x: 0, y: 1100 });
    let wb = rig.wheel.body.unwrap();
    assert_eq!(wb.groups.memberships, 6);
    assert_eq!(wb.groups.filters, 8);
    assert_eq!(wb.linear_damping, 100);
    assert_eq!(wb.angular_damping, 200);
}

#[test]
fn lost_sides_get_no_arm() {
    let c = sample_config();
    let rig = build_rig(point(0, 0), &LostLimbs { left: true, right: false }, &c);
    assert!(rig.left_arm.is_none());
    assert!(rig.right_arm.is_some());
    assert_eq!(rig.arms(), 1);
    assert_eq!(rig.joints().len(), 3);
    let bare = build_rig(point(0, 0), &LostLimbs { left: true, right: true }, &c);
    assert_eq!(bare.arms(), 0);
    assert_eq!(bare.live_arms(), 0);
    assert_eq!(bare.joints().len(), 2);
}

#[test]
fn right_torque_reaches_wheel_and_tube_each_tick() {
    let c = sample_config();
    let input = ControlInput { left: false, right: true, jump_just_pressed: false };
    assert_eq!(torque_direction(&input), 1);
    for _ in 0..5 {
        let f = calc_forces(&input, false, 0, &c);
        assert_eq!(f.wheel_torque, 10);
        assert_eq!(f.tube_torque, 4);
        assert_eq!(f.jump_speed, 0);
        assert!(f.accelerate);
        assert!(!f.jump_sound);
    }
}

#[test]
fn left_torque_is_negative_and_both_cancel() {
    let c = sample_config();
    let left = ControlInput { left: true, right: false, jump_just_pressed: false };
    assert_eq!(torque_direction(&left), -1);
    assert_eq!(calc_forces(&left, false, 0, &c).wheel_torque, -10);
    let both = ControlInput { left: true, right: true, jump_just_pressed: false };
    assert_eq!(torque_direction(&both), 0);
    let f = calc_forces(&both, true, 0, &c);
    assert_eq!(f.wheel_torque, 0);
    assert_eq!(f.tube_torque, 0);
    assert!(!f.accelerate);
}

#[test]
fn spinning_tube_gets_no_more_torque_the_same_way() {
    let c = sample_config();
    let right = ControlInput { left: false, right: true, jump_just_pressed: false };
    assert_eq!(calc_forces(&right, false, 8001, &c).tube_torque, 0);
    assert_eq!(calc_forces(&right, false, 8000, &c).tube_torque, 4);
    assert_eq!(calc_forces(&right, false, 7999, &c).tube_torque, 4);
    assert_eq!(calc_forces(&right, false, -9000, &c).tube_torque, 4);
    assert_eq!(calc_forces(&right, false, 9000, &c).wheel_torque, 10);
    let left = ControlInput { left: true, right: false, jump_just_pressed: false };
    assert_eq!(calc_forces(&left, false, -8001, &c).tube_torque, 0);
    assert_eq!(calc_forces(&left, false, -8000, &c).tube_torque, -4);
    assert_eq!(calc_forces(&left, false, 9000, &c).tube_torque, -4);
}

#[test]
fn jump_needs_ground() {
    let c = sample_config();
    let jump = ControlInput { left: false, right: false, jump_just_pressed: true };
    let airborne = calc_forces(&jump, false, 0, &c);
    assert_eq!(airborne.jump_speed, 0);
    assert!(!airborne.jump_sound);
    assert!(!airborne.accelerate);
    let grounded = calc_forces(&jump, true, 0, &c);
    assert_eq!(grounded.jump_speed, 7000);
    assert!(grounded.jump_sound);
    assert!(grounded.accelerate);
    assert_eq!(grounded.wheel_torque, 0);
}

#[test]
fn ground_probe_is_slightly_larger_than_wheel() {
    let p = ground_probe(point(3, 4));
    assert_eq!(p.center, Point { x: 3, y: 4 });
    assert_eq!(p.radius, GROUND_PROBE_RADIUS);
    assert!(p.radius > 1000);
    assert!(p.fixed_only);
}

#[test]
fn force_command_sounds_jump_before_engine() {
    let c = sample_config();
    let both = calc_forces(&ControlInput { left: false, right: true, jump_just_pressed: true }, true, 0, &c);
    assert_eq!(both.signals(), vec![Signal::PlaySound(Sfx::Jump), Signal::AccelerateEngine]);
    let roll = calc_forces(&ControlInput { left: true, right: false, jump_just_pressed: false }, true, 0, &c);
    assert_eq!(roll.signals(), vec![Signal::AccelerateEngine]);
    let idle = calc_forces(&ControlInput { left: false, right: false, jump_just_pressed: false }, true, 0, &c);
    assert!(idle.signals().is_empty());
}

use vstd::prelude::*;
use crate::config::GameConfig;
use crate::geometry::Point;
use crate::signal::{Sfx, Signal};

verus! {

/// Radius of the circle cast around the wheel to look for ground: a little
/// larger than the wheel.
pub const GROUND_PROBE_RADIUS: i64 = 1050;

/// The keys that drive the rig during one tick.
#[derive(Debug, Clone, Copy, PartialEq, Eq, Structural)]
pub struct ControlInput {
    /// A or Left arrow is held.
    pub left: bool,
    /// D or Right arrow is held.
    pub right: bool,
    /// Space went down during this tick.
    pub jump_just_pressed: bool,
}

/// What the force controller applies during one tick.
#[derive(Debug, Clone, Copy, PartialEq, Eq, Structural)]
pub struct ForceCommand {
    /// Clockwise torque impulse on the wheel.
    pub wheel_torque: i64,
    /// Clockwise torque impulse on the tube.
    pub tube_torque: i64,
    /// Vertical speed added to the wheel, the tube and the torso.
    pub jump_speed: i64,
    /// Whether the propulsion sound speeds up.
    pub accelerate: bool,
    /// Whether the jump sound plays.
    pub jump_sound: bool,
}

/// Direction of the requested torque: left is -1, right is +1, both or
/// neither is 0.
pub open spec fn spec_torque_direction(input: ControlInput) -> int {
    if input.left && !input.right {
        -1
    } else if input.right && !input.left {
        1
    } else {
        0
    }
}

/// Whether the tube already turns faster than its ceiling in the requested
/// direction, so that more torque would wind it further.
pub open spec fn spec_tube_saturated(direction: int, tube_angvel: i64, max: i64) -> bool {
    (direction > 0 && tube_angvel > max) || (direction < 0 && tube_angvel < -max)
}

/// The forces of one tick, given the keys, whether the wheel touches
/// ground, and the tube's clockwise angular velocity.
pub open spec fn spec_forces(
    input: ControlInput,
    grounded: bool,
    tube_angvel: i64,
    c: GameConfig,
) -> ForceCommand {
    let d = spec_torque_direction(input);
    let jump = input.jump_just_pressed && grounded;
    ForceCommand {
        wheel_torque: (d * c.wheel.torque_multiplier) as i64,
        tube_torque: if spec_tube_saturated(d, tube_angvel, c.tube.max_angular_velocity) {
            0
        } else {
            (d * c.tube.torque_multiplier) as i64
        },
        jump_speed: if jump { c.jump_y_speed } else { 0 },
        accelerate: d != 0 || jump,
        jump_sound: jump,
    }
}

/// The sounds a force command asks for: the jump sound first, then the
/// propulsion sound speeding up.
pub open spec fn spec_force_signals(f: ForceCommand) -> Seq<Signal> {
    (if f.jump_sound {
        seq![Signal::PlaySound(Sfx::Jump)]
    } else {
        seq![]
    }) + (if f.accelerate {
        seq![Signal::AccelerateEngine]
    } else {
        seq![]
    })
}

impl ForceCommand {
    /// The sounds this command asks for: the jump sound first, then the
    /// propulsion sound speeding up.
    pub fn signals(&self) -> (r: Vec<Signal>)
        ensures
            r@ == spec_force_signals(*self),
    {
        let mut r: Vec<Signal> = Vec::new();
        if self.jump_sound {
            r.push(Signal::PlaySound(Sfx::Jump));
        }
        if self.accelerate {
            r.push(Signal::AccelerateEngine);
        }
        assert(r@ =~= spec_force_signals(*self));
        r
    }
}

/// Direction of the requested torque: left is -1, right is +1, both or
/// neither is 0.
pub fn torque_direction(input: &ControlInput) -> (r: i64)
    ensures
        r == spec_torque_direction(*input),
        -1 <= r <= 1,
{
    let mut d: i64 = 0;
    if input.left {
        d -= 1;
    }
    if input.right {
        d += 1;
    }
    d
}

/// The forces of one tick. Torque goes to the wheel and the tube, each with
/// its own multiplier; the tube's is withheld while it already turns past
/// its ceiling in the same direction. A jump counts only when the wheel
/// touches ground, and adds the configured vertical speed.
pub fn calc_forces(
    input: &ControlInput,
    grounded: bool,
    tube_angvel: i64,
    c: &GameConfig,
) -> (r: ForceCommand)
    requires
        c.wf(),
    ensures
        r == spec_forces(*input, grounded, tube_angvel, *c),
{
    let d = torque_direction(input);
    let jump = input.jump_just_pressed && grounded;
    let max = c.tube.max_angular_velocity;
    let saturated = (d > 0 && tube_angvel > max) || (d < 0 && tube_angvel < -max);
    ForceCommand {
        wheel_torque: d * c.wheel.torque_multiplier,
        tube_torque: if saturated {
            0
        } else {
            d * c.tube.torque_multiplier
        },
        jump_speed: if jump {
            c.jump_y_speed
        } else {
            0
        },
        accelerate: d != 0 || jump,
        jump_sound: jump,
    }
}

/// Where and how to look for ground under the wheel: a circle of
/// [`GROUND_PROBE_RADIUS`] at the wheel's position, against fixed bodies
/// only.
#[derive(Debug, Clone, Copy, PartialEq, Eq, Structural)]
pub struct GroundProbe {
    pub center: Point,
    pub radius: i64,
    pub fixed_only: bool,
}

/// The ground probe for a wheel at `wheel_position`.
pub fn ground_probe(wheel_position: Point) -> (r: GroundProbe)
    ensures
        r.center == wheel_position,
        r.radius == GROUND_PROBE_RADIUS,
        r.fixed_only,
{
    GroundProbe { center: wheel_position, radius: GROUND_PROBE_RADIUS, fixed_only: true }
}

} // verus!

use vstd::prelude::*;
use crate::collision::{coll_groups, CollisionGroups, ObjectGroup};
use crate::config::GameConfig;
use crate::geometry::{Point, UNIT};
use crate::limbs::{Arm, LostLimbs};

verus! {

/// Radius of the wheel.
pub const WHEEL_RADIUS: i64 = UNIT;

/// Friction coefficient of the wheel.
pub const WHEEL_FRICTION: i64 = UNIT;

/// Half the width of the tube.
pub const TUBE_HALF_WIDTH: i64 = 100;

/// Height of the tube's centre above the wheel's centre.
pub const TUBE_RISE: i64 = UNIT;

/// Gravity scale of a body that feels gravity as is.
pub const NORMAL_GRAVITY: i64 = UNIT;

/// Which part of the rig a segment is.
#[derive(Debug, Clone, Copy, PartialEq, Eq, Structural)]
pub enum SegmentKind {
    Wheel,
    Tube,
    Torso,
    Head,
    Arm(Arm),
}

/// Outline of a segment.
#[derive(Debug, Clone, Copy, PartialEq, Eq, Structural)]
pub enum Shape {
    /// A circle collider.
    Ball { radius: i64 },
    /// A box collider, given by its half extents.
    Cuboid { half_width: i64, half_height: i64 },
    /// A picture with no collider, given by its full size.
    Picture { width: i64, height: i64 },
}

/// How a joint constrains the two segments it binds.
#[derive(Debug, Clone, Copy, PartialEq, Eq, Structural)]
pub enum JointKind {
    /// The child may turn about the shared anchor.
    Revolute,
    /// The child is held rigidly.
    Fixed,
}

/// A joint that binds a segment to its parent, at an anchor local to each.
#[derive(Debug, Clone, Copy, PartialEq, Eq, Structural)]
pub struct Joint {
    pub kind: JointKind,
    pub parent: SegmentKind,
    pub parent_anchor: Point,
    pub child_anchor: Point,
}

/// Physical properties of a segment that takes part in the simulation.
#[derive(Debug, Clone, Copy, PartialEq, Eq, Structural)]
pub struct Body {
    /// Mass; `None` lets the simulation derive it from the shape.
    pub mass: Option<i64>,
    pub linear_damping: i64,
    pub angular_damping: i64,
    /// Friction; `None` keeps the simulation's default.
    pub friction: Option<i64>,
    pub gravity_scale: i64,
    pub groups: CollisionGroups,
    /// Whether contact forces on this body are reported for damage.
    pub reports_contact_forces: bool,
}

/// Orientation of a segment when the rig is built.
#[derive(Debug, Clone, Copy, PartialEq, Eq, Structural)]
pub enum Rotation {
    Upright,
    QuarterTurnClockwise,
}

/// One part of the rig.
#[derive(Debug, Clone, Copy, PartialEq, Eq, Structural)]
pub struct Segment {
    pub kind: SegmentKind,
    pub shape: Shape,
    /// Position relative to the rig's origin; for the head, relative to the
    /// torso.
    pub offset: Point,
    pub rotation: Rotation,
    /// `None` for a purely visual segment.
    pub body: Option<Body>,
    /// The joint to the parent segment, while it holds.
    pub joint: Option<Joint>,
    /// Whether contact forces on this segment still count as damage.
    pub live: bool,
}

/// The jointed bodies of the player: a wheel, a tube, a torso with a head
/// picture, and up to two arms.
#[derive(Debug, Clone, Copy, PartialEq, Eq, Structural)]
pub struct Rig {
    /// World position the rig was built at.
    pub origin: Point,
    pub wheel: Segment,
    pub tube: Segment,
    pub torso: Segment,
    pub head: Segment,
    pub left_arm: Option<Segment>,
    pub right_arm: Option<Segment>,
    /// Whether the head still follows the torso.
    pub head_attached: bool,
}

/// Half of a positive length, rounded down.
pub open spec fn half(v: i64) -> i64 {
    (v / 2) as i64
}

/// The wheel: a ball at the origin that touches walls.
pub open spec fn spec_wheel(c: GameConfig) -> Segment {
    Segment {
        kind: SegmentKind::Wheel,
        shape: Shape::Ball { radius: WHEEL_RADIUS },
        offset: Point { x: 0, y: 0 },
        rotation: Rotation::Upright,
        body: Some(
            Body {
                mass: None,
                linear_damping: c.wheel.linear_damping,
                angular_damping: c.wheel.angular_damping,
                friction: Some(WHEEL_FRICTION),
                gravity_scale: NORMAL_GRAVITY,
                groups: CollisionGroups {
                    memberships: ObjectGroup::PLAYER | ObjectGroup::WHEEL,
                    filters: ObjectGroup::WALL,
                },
                reports_contact_forces: false,
            },
        ),
        joint: None,
        live: false,
    }
}

/// The tube: a thin box turning about the wheel's centre at its bottom end.
pub open spec fn spec_tube(c: GameConfig) -> Segment {
    Segment {
        kind: SegmentKind::Tube,
        shape: Shape::Cuboid { half_width: TUBE_HALF_WIDTH, half_height: half(c.tube.length) },
        offset: Point { x: 0, y: TUBE_RISE },
        rotation: Rotation::Upright,
        body: Some(
            Body {
                mass: Some(c.tube.mass),
                linear_damping: c.tube.linear_damping,
                angular_damping: c.tube.angular_damping,
                friction: None,
                gravity_scale: NORMAL_GRAVITY,
                groups: CollisionGroups {
                    memberships: ObjectGroup::PLAYER,
                    filters: ObjectGroup::WALL,
                },
                reports_contact_forces: false,
            },
        ),
        joint: Some(
            Joint {
                kind: JointKind::Revolute,
                parent: SegmentKind::Wheel,
                parent_anchor: Point { x: 0, y: 0 },
                child_anchor: Point { x: 0, y: (-half(c.tube.length)) as i64 },
            },
        ),
        live: false,
    }
}

/// The torso: a box held rigidly at the top of the tube, live for damage.
pub open spec fn spec_torso(c: GameConfig) -> Segment {
    Segment {
        kind: SegmentKind::Torso,
        shape: Shape::Cuboid { half_width: half(c.torso.width), half_height: half(c.torso.height) },
        offset: Point { x: 0, y: (TUBE_RISE + half(c.tube.length)) as i64 },
        rotation: Rotation::Upright,
        body: Some(
            Body {
                mass: Some(c.torso.mass),
                linear_damping: 0,
                angular_damping: 0,
                friction: None,
                gravity_scale: c.torso.gravity_scale,
                groups: CollisionGroups {
                    memberships: ObjectGroup::PLAYER,
                    filters: ObjectGroup::WALL,
                },
                reports_contact_forces: true,
            },
        ),
        joint: Some(
            Joint {
                kind: JointKind::Fixed,
                parent: SegmentKind::Tube,
                parent_anchor: Point { x: 0, y: half(c.tube.length) },
                child_anchor: Point { x: 0, y: 0 },
            },
        ),
        live: true,
    }
}

/// The head: a picture placed relative to the torso, with no physics.
pub open spec fn spec_head(c: GameConfig) -> Segment {
    Segment {
        kind: SegmentKind::Head,
        shape: Shape::Picture { width: c.head.width, height: c.head.height },
        offset: Point { x: c.head.x, y: c.head.y },
        rotation: Rotation::Upright,
        body: None,
        joint: None,
        live: false,
    }
}

/// The socket point of the arm on `side`.
pub open spec fn spec_socket(c: GameConfig, side: Arm) -> Point {
    match side {
        Arm::Left => Point { x: c.arms.left.socket.point.x, y: c.arms.left.socket.point.y },
        Arm::Right => Point { x: c.arms.right.socket.point.x, y: c.arms.right.socket.point.y },
    }
}

/// An arm: a box turning about its socket on the torso, live for damage.
pub open spec fn spec_arm(c: GameConfig, side: Arm) -> Segment {
    Segment {
        kind: SegmentKind::Arm(side),
        shape: Shape::Cuboid { half_width: half(c.arms.length), half_height: half(c.arms.width) },
        offset: spec_socket(c, side),
        rotation: Rotation::QuarterTurnClockwise,
        body: Some(
            Body {
                mass: Some(c.arms.mass),
                linear_damping: 0,
                angular_damping: c.arms.angular_damping,
                friction: None,
                gravity_scale: NORMAL_GRAVITY,
                groups: CollisionGroups {
                    memberships: ObjectGroup::PLAYER,
                    filters: ObjectGroup::WALL,
                },
                reports_contact_forces: true,
            },
        ),
        joint: Some(
            Joint {
                kind: JointKind::Revolute,
                parent: SegmentKind::Torso,
                parent_anchor: spec_socket(c, side),
                child_anchor: Point { x: (-half(c.arms.length)) as i64, y: 0 },
            },
        ),
        live: true,
    }
}

/// The rig built at `spawn`: an arm on each side that is not lost.
pub open spec fn spec_build_rig(spawn: Point, lost: LostLimbs, c: GameConfig) -> Rig {
    Rig {
        origin: spawn,
        wheel: spec_wheel(c),
        tube: spec_tube(c),
        torso: spec_torso(c),
        head: spec_head(c),
        left_arm: if lost.left { None } else { Some(spec_arm(c, Arm::Left)) },
        right_arm: if lost.right { None } else { Some(spec_arm(c, Arm::Right)) },
        head_attached: true,
    }
}

impl Rig {
    /// The arm segment on `side`, if the rig has one.
    pub open spec fn spec_arm_on(self, side: Arm) -> Option<Segment> {
        match side {
            Arm::Left => self.left_arm,
            Arm::Right => self.right_arm,
        }
    }

    /// Number of arm segments, joined or not.
    pub open spec fn arm_count(self) -> int {
        (if self.left_arm is Some { 1int } else { 0int }) + (if self.right_arm is Some {
            1int
        } else {
            0int
        })
    }

    /// Whether the arm on `side` exists and still counts damage.
    pub open spec fn arm_live(self, side: Arm) -> bool {
        match self.spec_arm_on(side) {
            Some(s) => s.live,
            None => false,
        }
    }

    /// Number of arms that still count damage.
    pub open spec fn live_arm_count(self) -> int {
        (if self.arm_live(Arm::Left) { 1int } else { 0int }) + (if self.arm_live(Arm::Right) {
            1int
        } else {
            0int
        })
    }

    /// The arm segment on `side`, if the rig has one.
    pub fn arm_on(&self, side: Arm) -> (r: Option<Segment>)
        ensures
            r == self.spec_arm_on(side),
    {
        match side {
            Arm::Left => self.left_arm,
            Arm::Right => self.right_arm,
        }
    }

    /// Number of arm segments, joined or not.
    pub fn arms(&self) -> (r: usize)
        ensures
            r == self.arm_count(),
    {
        let mut n: usize = 0;
        if self.left_arm.is_some() {
            n += 1;
        }
        if self.right_arm.is_some() {
            n += 1;
        }
        n
    }

    /// Number of arms that still count damage.
    pub fn live_arms(&self) -> (r: usize)
        ensures
            r == self.live_arm_count(),
    {
        let mut n: usize = 0;
        if let Some(a) = &self.left_arm {
            if a.live {
                n += 1;
            }
        }
        if let Some(a) = &self.right_arm {
            if a.live {
                n += 1;
            }
        }
        n
    }

    /// The joints that still hold, each with the segment it binds as child,
    /// in the order tube, torso, left arm, right arm.
    pub fn joints(&self) -> (r: Vec<(SegmentKind, Joint)>)
        ensures
            r@ == joint_list(*self),
    {
        let mut r: Vec<(SegmentKind, Joint)> = Vec::new();
        if let Some(j) = self.tube.joint {
            r.push((SegmentKind::Tube, j));
        }
        if let Some(j) = self.torso.joint {
            r.push((SegmentKind::Torso, j));
        }
        if let Some(a) = &self.left_arm {
            if let Some(j) = a.joint {
                r.push((SegmentKind::Arm(Arm::Left), j));
            }
        }
        if let Some(a) = &self.right_arm {
            if let Some(j) = a.joint {
                r.push((SegmentKind::Arm(Arm::Right), j));
            }
        }
        assert(r@ =~= joint_list(*self));
        r
    }
}

/// The joint of `j` as a list of zero or one entries, tagged with `k`.
pub open spec fn joint_entry(k: SegmentKind, j: Option<Joint>) -> Seq<(SegmentKind, Joint)> {
    match j {
        Some(j) => seq![(k, j)],
        None => seq![],
    }
}

/// The joint of the arm segment `a`, if there is one and it holds.
pub open spec fn arm_joint(a: Option<Segment>) -> Option<Joint> {
    match a {
        Some(s) => s.joint,
        None => None,
    }
}

/// The joints of `r` that still hold, tagged with their child segment.
pub open spec fn joint_list(r: Rig) -> Seq<(SegmentKind, Joint)> {
    joint_entry(SegmentKind::Tube, r.tube.joint) + joint_entry(SegmentKind::Torso, r.torso.joint)
        + joint_entry(SegmentKind::Arm(Arm::Left), arm_joint(r.left_arm)) + joint_entry(
        SegmentKind::Arm(Arm::Right),
        arm_joint(r.right_arm),
    )
}

/// Builds the rig at `spawn`: wheel, tube, torso, head, and an arm on each
/// side that `lost` does not record as lost.
pub fn build_rig(spawn: Point, lost: &LostLimbs, c: &GameConfig) -> (r: Rig)
    requires
        c.wf(),
    ensures
        r == spec_build_rig(spawn, *lost, *c),
{
    let half_tube = c.tube.length / 2;
    let wheel = Segment {
        kind: SegmentKind::Wheel,
        shape: Shape::Ball { radius: WHEEL_RADIUS },
        offset: Point { x: 0, y: 0 },
        rotation: Rotation::Upright,
        body: Some(
            Body {
                mass: None,
                linear_damping: c.wheel.linear_damping,
                angular_damping: c.wheel.angular_damping,
                friction: Some(WHEEL_FRICTION),
                gravity_scale: NORMAL_GRAVITY,
                groups: coll_groups(ObjectGroup::PLAYER | ObjectGroup::WHEEL, ObjectGroup::WALL),
                reports_contact_forces: false,
            },
        ),
        joint: None,
        live: false,
    };
    let tube = Segment {
        kind: SegmentKind::Tube,
        shape: Shape::Cuboid { half_width: TUBE_HALF_WIDTH, half_height: half_tube },
        offset: Point { x: 0, y: TUBE_RISE },
        rotation: Rotation::Upright,
        body: Some(
            Body {
                mass: Some(c.tube.mass),
                linear_damping: c.tube.linear_damping,
                angular_damping: c.tube.angular_damping,
                friction: None,
                gravity_scale: NORMAL_GRAVITY,
                groups: coll_groups(ObjectGroup::PLAYER, ObjectGroup::WALL),
                reports_contact_forces: false,
            },
        ),
        joint: Some(
            Joint {
                kind: JointKind::Revolute,
                parent: SegmentKind::Wheel,
                parent_anchor: Point { x: 0, y: 0 },
                child_anchor: Point { x: 0, y: -half_tube },
            },
        ),
        live: false,
    };
    let torso = Segment {
        kind: SegmentKind::Torso,
        shape: Shape::Cuboid { half_width: c.torso.width / 2, half_height: c.torso.height / 2 },
        offset: Point { x: 0, y: TUBE_RISE + half_tube },
        rotation: Rotation::Upright,
        body: Some(
            Body {
                mass: Some(c.torso.mass),
                linear_damping: 0,
                angular_damping: 0,
                friction: None,
                gravity_scale: c.torso.gravity_scale,
                groups: coll_groups(ObjectGroup::PLAYER, ObjectGroup::WALL),
                reports_contact_forces: true,
            },
        ),
        joint: Some(
            Joint {
                kind: JointKind::Fixed,
                parent: SegmentKind::Tube,
                parent_anchor: Point { x: 0, y: half_tube },
                child_anchor: Point { x: 0, y: 0 },
            },
        ),
        live: true,
    };
    let head = Segment {
        kind: SegmentKind::Head,
        shape: Shape::Picture { width: c.head.width, height: c.head.height },
        offset: Point { x: c.head.x, y: c.head.y },
        rotation: Rotation::Upright,
        body: None,
        joint: None,
        live: false,
    };
    let left_arm = if lost.left {
        None
    } else {
        Some(build_arm(c, Arm::Left))
    };
    let right_arm = if lost.right {
        None
    } else {
        Some(build_arm(c, Arm::Right))
    };
    Rig { origin: spawn, wheel, tube, torso, head, left_arm, right_arm, head_attached: true }
}

/// The arm on `side`, joined to its socket on the torso.
fn build_arm(c: &GameConfig, side: Arm) -> (r: Segment)
    requires
        c.wf(),
    ensures
        r == spec_arm(*c, side),
{
    let socket = match side {
        Arm::Left => Point { x: c.arms.left.socket.point.x, y: c.arms.left.socket.point.y },
        Arm::Right => Point { x: c.arms.right.socket.point.x, y: c.arms.right.socket.point.y },
    };
    let half_length = c.arms.length / 2;
    Segment {
        kind: SegmentKind::Arm(side),
        shape: Shape::Cuboid { half_width: half_length, half_height: c.arms.width / 2 },
        offset: socket,
        rotation: Rotation::QuarterTurnClockwise,
        body: Some(
            Body {
                mass: Some(c.arms.mass),
                linear_damping: 0,
                angular_damping: c.arms.angular_damping,
                friction: None,
                gravity_scale: NORMAL_GRAVITY,
                groups: coll_groups(ObjectGroup::PLAYER, ObjectGroup::WALL),
                reports_contact_forces: true,
            },
        ),
        joint: Some(
            Joint {
                kind: JointKind::Revolute,
                parent: SegmentKind::Torso,
                parent_anchor: socket,
                child_anchor: Point { x: -half_length, y: 0 },
            },
        ),
        live: true,
    }
}

/// A freshly built rig has no arm on a side recorded as lost, and one on
/// each other side: as many arms as the limb count.
pub proof fn lemma_rig_arms_follow_lost_limbs(spawn: Point, lost: LostLimbs, c: GameConfig)
    ensures
        forall|side: Arm| lost.spec_is_lost(side) ==> spec_build_rig(spawn, lost, c).spec_arm_on(side) is None,
        forall|side: Arm| !lost.spec_is_lost(side) ==> spec_build_rig(spawn, lost, c).arm_live(side),
        spec_build_rig(spawn, lost, c).arm_count() == 2 - crate::limbs::lost_count(lost),
        spec_build_rig(spawn, lost, c).live_arm_count() == 2 - crate::limbs::lost_count(lost),
{
}

/// With exactly one arm lost, the number of arms built equals two minus
/// the limb count.
pub proof fn lemma_one_lost_arm_count(spawn: Point, lost: LostLimbs, c: GameConfig)
    requires
        crate::limbs::lost_count(lost) == 1,
    ensures
        spec_build_rig(spawn, lost, c).arm_count() == 2 - (2 - crate::limbs::lost_count(lost)),
{
}

} // verus!

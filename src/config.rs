use vstd::prelude::*;

verus! {

/// Largest magnitude of a tunable.
pub const MAX_TUNABLE: i64 = 1_000_000_000_000;

/// Number of tunables that [`GameConfig::validate`] checks.
pub const FIELD_COUNT: usize = 28;

/// Tunables of the wheel.
#[derive(Debug, Clone, Copy, PartialEq, Eq, Structural)]
pub struct WheelConfig {
    pub torque_multiplier: i64,
    pub linear_damping: i64,
    pub angular_damping: i64,
}

/// Tunables of the tube between wheel and torso.
#[derive(Debug, Clone, Copy, PartialEq, Eq, Structural)]
pub struct TubeConfig {
    pub torque_multiplier: i64,
    pub linear_damping: i64,
    pub angular_damping: i64,
    pub mass: i64,
    pub length: i64,
    /// Angular speed above which the tube gets no more torque in the same
    /// direction.
    pub max_angular_velocity: i64,
}

/// Tunables of the torso.
#[derive(Debug, Clone, Copy, PartialEq, Eq, Structural)]
pub struct TorsoConfig {
    pub width: i64,
    pub height: i64,
    pub mass: i64,
    pub gravity_scale: i64,
    /// Peak contact force above which the torso dies.
    pub death_force: i64,
}

/// A point of the configuration, relative to the body it belongs to.
#[derive(Debug, Clone, Copy, PartialEq, Eq, Structural)]
pub struct PointConfig {
    pub x: i64,
    pub y: i64,
}

/// Where an arm is joined to the torso.
#[derive(Debug, Clone, Copy, PartialEq, Eq, Structural)]
pub struct SocketConfig {
    pub point: PointConfig,
}

/// Tunables of one arm.
#[derive(Debug, Clone, Copy, PartialEq, Eq, Structural)]
pub struct ArmConfig {
    pub socket: SocketConfig,
}

/// Tunables shared by both arms, and each arm's socket.
#[derive(Debug, Clone, Copy, PartialEq, Eq, Structural)]
pub struct ArmsConfig {
    /// Peak contact force above which an arm is torn off.
    pub detach_force: i64,
    pub length: i64,
    pub width: i64,
    pub left: ArmConfig,
    pub right: ArmConfig,
    pub mass: i64,
    pub angular_damping: i64,
}

/// Placement and size of the head picture, relative to the torso.
#[derive(Debug, Clone, Copy, PartialEq, Eq, Structural)]
pub struct HeadConfig {
    pub x: i64,
    pub y: i64,
    pub width: i64,
    pub height: i64,
}

/// Every tunable that the rig, the controller and the damage rules read.
#[derive(Debug, Clone, Copy, PartialEq, Eq, Structural)]
pub struct GameConfig {
    pub wheel: WheelConfig,
    pub tube: TubeConfig,
    pub torso: TorsoConfig,
    pub arms: ArmsConfig,
    pub head: HeadConfig,
    /// Vertical speed added to the wheel, tube and torso on a jump.
    pub jump_y_speed: i64,
}

/// Names a tunable, for error reports.
#[derive(Debug, Clone, Copy, PartialEq, Eq, Structural)]
pub enum ConfigField {
    WheelTorqueMultiplier,
    WheelLinearDamping,
    WheelAngularDamping,
    TubeTorqueMultiplier,
    TubeLinearDamping,
    TubeAngularDamping,
    TubeMass,
    TubeLength,
    TubeMaxAngularVelocity,
    TorsoWidth,
    TorsoHeight,
    TorsoMass,
    TorsoGravityScale,
    TorsoDeathForce,
    ArmsDetachForce,
    ArmsLength,
    ArmsWidth,
    ArmsMass,
    ArmsAngularDamping,
    LeftSocketX,
    LeftSocketY,
    RightSocketX,
    RightSocketY,
    HeadX,
    HeadY,
    HeadWidth,
    HeadHeight,
    JumpYSpeed,
}

/// What a tunable must satisfy besides its magnitude bound.
#[derive(Debug, Clone, Copy, PartialEq, Eq, Structural)]
pub enum Rule {
    Positive,
    NonNegative,
    Any,
}

/// Why a configuration was refused.
#[derive(Debug, Clone, Copy, PartialEq, Eq, Structural)]
pub enum ConfigError {
    /// The magnitude exceeds [`MAX_TUNABLE`].
    OutOfRange(ConfigField),
    /// A size or mass that is zero or negative.
    NotPositive(ConfigField),
    /// A damping, multiplier, threshold or speed below zero.
    Negative(ConfigField),
}

/// The tunables in the order in which they are checked.
pub open spec fn spec_field_at(i: int) -> ConfigField {
    if i == 0 {
        ConfigField::WheelTorqueMultiplier
    } else if i == 1 {
        ConfigField::WheelLinearDamping
    } else if i == 2 {
        ConfigField::WheelAngularDamping
    } else if i == 3 {
        ConfigField::TubeTorqueMultiplier
    } else if i == 4 {
        ConfigField::TubeLinearDamping
    } else if i == 5 {
        ConfigField::TubeAngularDamping
    } else if i == 6 {
        ConfigField::TubeMass
    } else if i == 7 {
        ConfigField::TubeLength
    } else if i == 8 {
        ConfigField::TubeMaxAngularVelocity
    } else if i == 9 {
        ConfigField::TorsoWidth
    } else if i == 10 {
        ConfigField::TorsoHeight
    } else if i == 11 {
        ConfigField::TorsoMass
    } else if i == 12 {
        ConfigField::TorsoGravityScale
    } else if i == 13 {
        ConfigField::TorsoDeathForce
    } else if i == 14 {
        ConfigField::ArmsDetachForce
    } else if i == 15 {
        ConfigField::ArmsLength
    } else if i == 16 {
        ConfigField::ArmsWidth
    } else if i == 17 {
        ConfigField::ArmsMass
    } else if i == 18 {
        ConfigField::ArmsAngularDamping
    } else if i == 19 {
        ConfigField::LeftSocketX
    } else if i == 20 {
        ConfigField::LeftSocketY
    } else if i == 21 {
        ConfigField::RightSocketX
    } else if i == 22 {
        ConfigField::RightSocketY
    } else if i == 23 {
        ConfigField::HeadX
    } else if i == 24 {
        ConfigField::HeadY
    } else if i == 25 {
        ConfigField::HeadWidth
    } else if i == 26 {
        ConfigField::HeadHeight
    } else {
        ConfigField::JumpYSpeed
    }
}

/// The rule that a tunable must satisfy.
pub open spec fn spec_rule_of(f: ConfigField) -> Rule {
    match f {
        ConfigField::WheelTorqueMultiplier => Rule::NonNegative,
        ConfigField::WheelLinearDamping => Rule::NonNegative,
        ConfigField::WheelAngularDamping => Rule::NonNegative,
        ConfigField::TubeTorqueMultiplier => Rule::NonNegative,
        ConfigField::TubeLinearDamping => Rule::NonNegative,
        ConfigField::TubeAngularDamping => Rule::NonNegative,
        ConfigField::TubeMass => Rule::Positive,
        ConfigField::TubeLength => Rule::Positive,
        ConfigField::TubeMaxAngularVelocity => Rule::Positive,
        ConfigField::TorsoWidth => Rule::Positive,
        ConfigField::TorsoHeight => Rule::Positive,
        ConfigField::TorsoMass => Rule::Positive,
        ConfigField::TorsoGravityScale => Rule::Any,
        ConfigField::TorsoDeathForce => Rule::NonNegative,
        ConfigField::ArmsDetachForce => Rule::NonNegative,
        ConfigField::ArmsLength => Rule::Positive,
        ConfigField::ArmsWidth => Rule::Positive,
        ConfigField::ArmsMass => Rule::Positive,
        ConfigField::ArmsAngularDamping => Rule::NonNegative,
        ConfigField::LeftSocketX => Rule::Any,
        ConfigField::LeftSocketY => Rule::Any,
        ConfigField::RightSocketX => Rule::Any,
        ConfigField::RightSocketY => Rule::Any,
        ConfigField::HeadX => Rule::Any,
        ConfigField::HeadY => Rule::Any,
        ConfigField::HeadWidth => Rule::Positive,
        ConfigField::HeadHeight => Rule::Positive,
        ConfigField::JumpYSpeed => Rule::NonNegative,
    }
}

/// The problem with value `v` of tunable `f`, if any: the magnitude bound
/// is checked before the sign.
pub open spec fn spec_field_problem(f: ConfigField, v: i64) -> Option<ConfigError> {
    if v < -MAX_TUNABLE || v > MAX_TUNABLE {
        Some(ConfigError::OutOfRange(f))
    } else if spec_rule_of(f) == Rule::Positive && v <= 0 {
        Some(ConfigError::NotPositive(f))
    } else if spec_rule_of(f) == Rule::NonNegative && v < 0 {
        Some(ConfigError::Negative(f))
    } else {
        None
    }
}

/// A value within the magnitude bound.
pub open spec fn tunable(v: i64) -> bool {
    -MAX_TUNABLE <= v <= MAX_TUNABLE
}

/// A positive value within the magnitude bound.
pub open spec fn positive(v: i64) -> bool {
    0 < v <= MAX_TUNABLE
}

/// A non-negative value within the magnitude bound.
pub open spec fn non_negative(v: i64) -> bool {
    0 <= v <= MAX_TUNABLE
}

impl GameConfig {
    /// The value of tunable `f`.
    pub open spec fn spec_value(self, f: ConfigField) -> i64 {
        match f {
            ConfigField::WheelTorqueMultiplier => self.wheel.torque_multiplier,
            ConfigField::WheelLinearDamping => self.wheel.linear_damping,
            ConfigField::WheelAngularDamping => self.wheel.angular_damping,
            ConfigField::TubeTorqueMultiplier => self.tube.torque_multiplier,
            ConfigField::TubeLinearDamping => self.tube.linear_damping,
            ConfigField::TubeAngularDamping => self.tube.angular_damping,
            ConfigField::TubeMass => self.tube.mass,
            ConfigField::TubeLength => self.tube.length,
            ConfigField::TubeMaxAngularVelocity => self.tube.max_angular_velocity,
            ConfigField::TorsoWidth => self.torso.width,
            ConfigField::TorsoHeight => self.torso.height,
            ConfigField::TorsoMass => self.torso.mass,
            ConfigField::TorsoGravityScale => self.torso.gravity_scale,
            ConfigField::TorsoDeathForce => self.torso.death_force,
            ConfigField::ArmsDetachForce => self.arms.detach_force,
            ConfigField::ArmsLength => self.arms.length,
            ConfigField::ArmsWidth => self.arms.width,
            ConfigField::ArmsMass => self.arms.mass,
            ConfigField::ArmsAngularDamping => self.arms.angular_damping,
            ConfigField::LeftSocketX => self.arms.left.socket.point.x,
            ConfigField::LeftSocketY => self.arms.left.socket.point.y,
            ConfigField::RightSocketX => self.arms.right.socket.point.x,
            ConfigField::RightSocketY => self.arms.right.socket.point.y,
            ConfigField::HeadX => self.head.x,
            ConfigField::HeadY => self.head.y,
            ConfigField::HeadWidth => self.head.width,
            ConfigField::HeadHeight => self.head.height,
            ConfigField::JumpYSpeed => self.jump_y_speed,
        }
    }

    /// The first problem among the tunables from position `i` on.
    pub open spec fn first_problem_from(self, i: int) -> Option<ConfigError>
        decreases FIELD_COUNT - i,
    {
        if i < 0 || i >= FIELD_COUNT {
            None
        } else {
            match spec_field_problem(spec_field_at(i), self.spec_value(spec_field_at(i))) {
                Some(e) => Some(e),
                None => self.first_problem_from(i + 1),
            }
        }
    }

    /// Every tunable is within its bound and has the sign its rule asks.
    pub open spec fn wf(self) -> bool {
        &&& non_negative(self.wheel.torque_multiplier)
        &&& non_negative(self.wheel.linear_damping)
        &&& non_negative(self.wheel.angular_damping)
        &&& non_negative(self.tube.torque_multiplier)
        &&& non_negative(self.tube.linear_damping)
        &&& non_negative(self.tube.angular_damping)
        &&& positive(self.tube.mass)
        &&& positive(self.tube.length)
        &&& positive(self.tube.max_angular_velocity)
        &&& positive(self.torso.width)
        &&& positive(self.torso.height)
        &&& positive(self.torso.mass)
        &&& tunable(self.torso.gravity_scale)
        &&& non_negative(self.torso.death_force)
        &&& non_negative(self.arms.detach_force)
        &&& positive(self.arms.length)
        &&& positive(self.arms.width)
        &&& positive(self.arms.mass)
        &&& non_negative(self.arms.angular_damping)
        &&& tunable(self.arms.left.socket.point.x)
        &&& tunable(self.arms.left.socket.point.y)
        &&& tunable(self.arms.right.socket.point.x)
        &&& tunable(self.arms.right.socket.point.y)
        &&& tunable(self.head.x)
        &&& tunable(self.head.y)
        &&& positive(self.head.width)
        &&& positive(self.head.height)
        &&& non_negative(self.jump_y_speed)
    }

    /// The value of tunable `f`.
    pub fn value(&self, f: ConfigField) -> (r: i64)
        ensures
            r == self.spec_value(f),
    {
        match f {
            ConfigField::WheelTorqueMultiplier => self.wheel.torque_multiplier,
            ConfigField::WheelLinearDamping => self.wheel.linear_damping,
            ConfigField::WheelAngularDamping => self.wheel.angular_damping,
            ConfigField::TubeTorqueMultiplier => self.tube.torque_multiplier,
            ConfigField::TubeLinearDamping => self.tube.linear_damping,
            ConfigField::TubeAngularDamping => self.tube.angular_damping,
            ConfigField::TubeMass => self.tube.mass,
            ConfigField::TubeLength => self.tube.length,
            ConfigField::TubeMaxAngularVelocity => self.tube.max_angular_velocity,
            ConfigField::TorsoWidth => self.torso.width,
            ConfigField::TorsoHeight => self.torso.height,
            ConfigField::TorsoMass => self.torso.mass,
            ConfigField::TorsoGravityScale => self.torso.gravity_scale,
            ConfigField::TorsoDeathForce => self.torso.death_force,
            ConfigField::ArmsDetachForce => self.arms.detach_force,
            ConfigField::ArmsLength => self.arms.length,
            ConfigField::ArmsWidth => self.arms.width,
            ConfigField::ArmsMass => self.arms.mass,
            ConfigField::ArmsAngularDamping => self.arms.angular_damping,
            ConfigField::LeftSocketX => self.arms.left.socket.point.x,
            ConfigField::LeftSocketY => self.arms.left.socket.point.y,
            ConfigField::RightSocketX => self.arms.right.socket.point.x,
            ConfigField::RightSocketY => self.arms.right.socket.point.y,
            ConfigField::HeadX => self.head.x,
            ConfigField::HeadY => self.head.y,
            ConfigField::HeadWidth => self.head.width,
            ConfigField::HeadHeight => self.head.height,
            ConfigField::JumpYSpeed => self.jump_y_speed,
        }
    }

    /// Checks every tunable in order and reports the first problem found.
    pub fn validate(&self) -> (r: Result<(), ConfigError>)
        ensures
            r is Ok <==> self.wf(),
            r is Ok <==> self.first_problem_from(0) is None,
            r matches Err(e) ==> self.first_problem_from(0) == Some(e),
    {
        let mut i: usize = 0;
        while i < FIELD_COUNT
            invariant
                0 <= i <= FIELD_COUNT,
                self.first_problem_from(0) == self.first_problem_from(i as int),
            decreases FIELD_COUNT - i,
        {
            let f = field_at(i);
            let v = self.value(f);
            match field_problem(f, v) {
                Some(e) => {
                    proof {
                        lemma_wf_iff_no_problem(*self);
                    }
                    return Err(e);
                },
                None => {},
            }
            i += 1;
        }
        proof {
            lemma_wf_iff_no_problem(*self);
        }
        Ok(())
    }
}

/// A configuration is well formed exactly when no tunable has a problem.
pub proof fn lemma_wf_iff_no_problem(c: GameConfig)
    ensures
        c.wf() <==> c.first_problem_from(0) is None,
{
    reveal_with_fuel(GameConfig::first_problem_from, 30);
}

/// The tunable at position `i` of the check order.
pub fn field_at(i: usize) -> (r: ConfigField)
    requires
        i < FIELD_COUNT,
    ensures
        r == spec_field_at(i as int),
{
    match i {
        0 => ConfigField::WheelTorqueMultiplier,
        1 => ConfigField::WheelLinearDamping,
        2 => ConfigField::WheelAngularDamping,
        3 => ConfigField::TubeTorqueMultiplier,
        4 => ConfigField::TubeLinearDamping,
        5 => ConfigField::TubeAngularDamping,
        6 => ConfigField::TubeMass,
        7 => ConfigField::TubeLength,
        8 => ConfigField::TubeMaxAngularVelocity,
        9 => ConfigField::TorsoWidth,
        10 => ConfigField::TorsoHeight,
        11 => ConfigField::TorsoMass,
        12 => ConfigField::TorsoGravityScale,
        13 => ConfigField::TorsoDeathForce,
        14 => ConfigField::ArmsDetachForce,
        15 => ConfigField::ArmsLength,
        16 => ConfigField::ArmsWidth,
        17 => ConfigField::ArmsMass,
        18 => ConfigField::ArmsAngularDamping,
        19 => ConfigField::LeftSocketX,
        20 => ConfigField::LeftSocketY,
        21 => ConfigField::RightSocketX,
        22 => ConfigField::RightSocketY,
        23 => ConfigField::HeadX,
        24 => ConfigField::HeadY,
        25 => ConfigField::HeadWidth,
        26 => ConfigField::HeadHeight,
        _ => ConfigField::JumpYSpeed,
    }
}

/// The rule that tunable `f` must satisfy.
pub fn rule_of(f: ConfigField) -> (r: Rule)
    ensures
        r == spec_rule_of(f),
{
    match f {
        ConfigField::WheelTorqueMultiplier => Rule::NonNegative,
        ConfigField::WheelLinearDamping => Rule::NonNegative,
        ConfigField::WheelAngularDamping => Rule::NonNegative,
        ConfigField::TubeTorqueMultiplier => Rule::NonNegative,
        ConfigField::TubeLinearDamping => Rule::NonNegative,
        ConfigField::TubeAngularDamping => Rule::NonNegative,
        ConfigField::TubeMass => Rule::Positive,
        ConfigField::TubeLength => Rule::Positive,
        ConfigField::TubeMaxAngularVelocity => Rule::Positive,
        ConfigField::TorsoWidth => Rule::Positive,
        ConfigField::TorsoHeight => Rule::Positive,
        ConfigField::TorsoMass => Rule::Positive,
        ConfigField::TorsoGravityScale => Rule::Any,
        ConfigField::TorsoDeathForce => Rule::NonNegative,
        ConfigField::ArmsDetachForce => Rule::NonNegative,
        ConfigField::ArmsLength => Rule::Positive,
        ConfigField::ArmsWidth => Rule::Positive,
        ConfigField::ArmsMass => Rule::Positive,
        ConfigField::ArmsAngularDamping => Rule::NonNegative,
        ConfigField::LeftSocketX => Rule::Any,
        ConfigField::LeftSocketY => Rule::Any,
        ConfigField::RightSocketX => Rule::Any,
        ConfigField::RightSocketY => Rule::Any,
        ConfigField::HeadX => Rule::Any,
        ConfigField::HeadY => Rule::Any,
        ConfigField::HeadWidth => Rule::Positive,
        ConfigField::HeadHeight => Rule::Positive,
        ConfigField::JumpYSpeed => Rule::NonNegative,
    }
}

/// The problem with value `v` of tunable `f`, if any.
pub fn field_problem(f: ConfigField, v: i64) -> (r: Option<ConfigError>)
    ensures
        r == spec_field_problem(f, v),
{
    if v < -MAX_TUNABLE || v > MAX_TUNABLE {
        Some(ConfigError::OutOfRange(f))
    } else {
        match rule_of(f) {
            Rule::Positive => if v <= 0 {
                Some(ConfigError::NotPositive(f))
            } else {
                None
            },
            Rule::NonNegative => if v < 0 {
                Some(ConfigError::Negative(f))
            } else {
                None
            },
            Rule::Any => None,
        }
    }
}

} // verus!

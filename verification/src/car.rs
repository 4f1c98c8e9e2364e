//! Per-frame control rules for the traffic cars.
//!
//! A car drives along its lane under a constant forward force until it
//! reaches its target speed; a correction torque keeps it pointed down the
//! lane within fixed angle thresholds; hazards change the friction of its
//! wheels and wreck it; a crash plays one of three sounds depending on the
//! impulse magnitude.

use vstd::prelude::*;

use crate::consts::CAR_FORWARD_FORCE_MILLI;
use crate::consts::CRASH_SOUND_MAGNITUDE_CUTOFF_1_MILLI;
use crate::consts::CRASH_SOUND_MAGNITUDE_CUTOFF_2_MILLI;
use crate::consts::INITIAL_CAR_MODEL_YAW_MDEG;
use crate::consts::MAX_TILT_FOR_TORQUE_CORRECTION_MDEG;
use crate::consts::MAX_YAW_RATE_FOR_TORQUE_CORRECTION_MDEG;
use crate::consts::MIN_DEVIATION_FOR_TORQUE_CORRECTION_MDEG;
use crate::consts::WHEEL_FRICTION_NAILED_MILLI;
use crate::consts::WHEEL_FRICTION_NORMAL_MILLI;
use crate::consts::WHEEL_FRICTION_SOAPED_AND_NAILED_MILLI;
use crate::consts::WHEEL_FRICTION_SOAPED_MILLI;

verus! {

/// The two directions traffic can drive in; every lane runs along the x axis.
#[derive(Clone, Copy, Debug, PartialEq, Eq, Structural)]
pub enum LaneDirection {
    PosX,
    NegX,
}

impl LaneDirection {
    pub open spec fn spec_sign(self) -> int {
        match self {
            LaneDirection::PosX => 1,
            LaneDirection::NegX => -1,
        }
    }

    /// The sign of the x component of the unit driving direction.
    pub fn sign(&self) -> (s: i64)
        ensures
            s == self.spec_sign(),
    {
        match self {
            LaneDirection::PosX => 1,
            LaneDirection::NegX => -1,
        }
    }
}

/// Yaw at which a car model spawns so that it faces down its lane.
///
/// The model assets face sideways, so a quarter turn is needed for one
/// direction and three quarters for the other.
pub fn initial_model_yaw_mdeg(dir: LaneDirection) -> (yaw: u64)
    ensures
        dir is PosX ==> yaw == INITIAL_CAR_MODEL_YAW_MDEG,
        dir is NegX ==> yaw == INITIAL_CAR_MODEL_YAW_MDEG + 180000,
{
    match dir {
        LaneDirection::PosX => INITIAL_CAR_MODEL_YAW_MDEG,
        LaneDirection::NegX => INITIAL_CAR_MODEL_YAW_MDEG + 180000,
    }
}

/// One physics step of the driving force rule.
///
/// A wrecked car gets no drive, and neither does a car already moving faster
/// than its target speed; every other car has the constant forward force
/// added to the accumulated external force along its lane.
pub fn drive_force_milli(
    wrecked: bool,
    speed_milli: u64,
    target_speed_milli: u64,
    dir: LaneDirection,
    force_milli: i64,
) -> (f: i64)
    requires
        i64::MIN + CAR_FORWARD_FORCE_MILLI <= force_milli <= i64::MAX - CAR_FORWARD_FORCE_MILLI,
    ensures
        wrecked || speed_milli > target_speed_milli ==> f == force_milli,
        !wrecked && speed_milli <= target_speed_milli ==> f == force_milli + dir.spec_sign()
            * CAR_FORWARD_FORCE_MILLI,
{
    if wrecked || speed_milli > target_speed_milli {
        force_milli
    } else {
        force_milli + dir.sign() * CAR_FORWARD_FORCE_MILLI
    }
}

/// What the yaw correction of one physics step does to a car.
#[derive(Clone, Copy, Debug, PartialEq, Eq, Structural)]
pub enum TorqueAction {
    /// No torque is applied.
    Leave,
    /// A torque of the car's yaw inertia is applied around the y axis, with
    /// the given sign.
    Counteract { positive: bool },
}

/// The yaw correction rule of one physics step.
pub open spec fn spec_torque_action(
    wrecked: bool,
    tilt_mdeg: u64,
    deviation_mdeg: u64,
    yaw_rate_mdeg: int,
    axis_y_milli: int,
) -> TorqueAction {
    if wrecked {
        TorqueAction::Leave
    } else if tilt_mdeg > MAX_TILT_FOR_TORQUE_CORRECTION_MDEG {
        TorqueAction::Leave
    } else if deviation_mdeg < MIN_DEVIATION_FOR_TORQUE_CORRECTION_MDEG {
        TorqueAction::Leave
    } else if (if yaw_rate_mdeg >= 0 {
        yaw_rate_mdeg
    } else {
        -yaw_rate_mdeg
    }) > MAX_YAW_RATE_FOR_TORQUE_CORRECTION_MDEG {
        TorqueAction::Leave
    } else {
        TorqueAction::Counteract { positive: axis_y_milli >= 0 }
    }
}

/// Decides the yaw correction for one car and one physics step.
///
/// A wrecked car is left alone; so is a car tilted too far off the y axis
/// (correcting it would fight the simulation), a car already within the
/// tolerated deviation from its lane heading, and a car spinning faster than
/// the cap in either direction (the driver has no influence on a spinning
/// car).  Otherwise a counteracting torque is applied whose sign follows the
/// y component of the rotation axis from the current heading to the lane
/// heading.
///
/// `tilt_mdeg` is the angle between the car's up axis and the world's,
/// `deviation_mdeg` the angle between the car's heading and the lane's (both
/// angles are non-negative by construction), `yaw_rate_mdeg` the signed
/// angular speed around y per second, and `axis_y_milli` the y component of
/// the correction axis.
pub fn correct_car_torque(
    wrecked: bool,
    tilt_mdeg: u64,
    deviation_mdeg: u64,
    yaw_rate_mdeg: i64,
    axis_y_milli: i64,
) -> (a: TorqueAction)
    requires
        yaw_rate_mdeg > i64::MIN,
    ensures
        a == spec_torque_action(
            wrecked,
            tilt_mdeg,
            deviation_mdeg,
            yaw_rate_mdeg as int,
            axis_y_milli as int,
        ),
{
    if wrecked {
        TorqueAction::Leave
    } else if tilt_mdeg > MAX_TILT_FOR_TORQUE_CORRECTION_MDEG {
        TorqueAction::Leave
    } else if deviation_mdeg < MIN_DEVIATION_FOR_TORQUE_CORRECTION_MDEG {
        TorqueAction::Leave
    } else {
        let rate_abs: i64 = if yaw_rate_mdeg >= 0 {
            yaw_rate_mdeg
        } else {
            -yaw_rate_mdeg
        };
        if rate_abs > MAX_YAW_RATE_FOR_TORQUE_CORRECTION_MDEG {
            TorqueAction::Leave
        } else {
            TorqueAction::Counteract { positive: axis_y_milli >= 0 }
        }
    }
}

/// The friction a wheel gets once hazards have marked it.
pub open spec fn spec_wheel_friction_milli(soaped: bool, nailed: bool) -> u32 {
    if soaped && nailed {
        WHEEL_FRICTION_SOAPED_AND_NAILED_MILLI
    } else if soaped {
        WHEEL_FRICTION_SOAPED_MILLI
    } else if nailed {
        WHEEL_FRICTION_NAILED_MILLI
    } else {
        WHEEL_FRICTION_NORMAL_MILLI
    }
}

/// Reacts to a hazard marking an entity: picks the new friction coefficient
/// of the entity, and says whether its parent car is to be wrecked.
///
/// The friction follows the soaped/nailed table; the parent is wrecked
/// exactly when the marked entity is a wheel that has one.
pub fn friction_change(is_wheel: bool, has_parent: bool, soaped: bool, nailed: bool) -> (r: (
    u32,
    bool,
))
    ensures
        r.0 == spec_wheel_friction_milli(soaped, nailed),
        r.1 <==> is_wheel && has_parent,
{
    let friction: u32 = if soaped && nailed {
        WHEEL_FRICTION_SOAPED_AND_NAILED_MILLI
    } else if soaped {
        WHEEL_FRICTION_SOAPED_MILLI
    } else if nailed {
        WHEEL_FRICTION_NAILED_MILLI
    } else {
        WHEEL_FRICTION_NORMAL_MILLI
    };
    (friction, is_wheel && has_parent)
}

/// Which of the three crash sounds a crash of the given magnitude plays.
pub open spec fn spec_crash_sound_index(magnitude_milli: u64) -> int {
    if magnitude_milli < CRASH_SOUND_MAGNITUDE_CUTOFF_1_MILLI {
        0
    } else if magnitude_milli < CRASH_SOUND_MAGNITUDE_CUTOFF_2_MILLI {
        1
    } else {
        2
    }
}

/// Picks the crash sound for a crash of the given impulse magnitude: the
/// small sound below the first cutoff, the medium one below the second, the
/// big one from there on.
pub fn crash_sound_index(magnitude_milli: u64) -> (i: usize)
    ensures
        i == spec_crash_sound_index(magnitude_milli),
{
    if magnitude_milli < CRASH_SOUND_MAGNITUDE_CUTOFF_1_MILLI {
        0
    } else if magnitude_milli < CRASH_SOUND_MAGNITUDE_CUTOFF_2_MILLI {
        1
    } else {
        2
    }
}

} // verus!

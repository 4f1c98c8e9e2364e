//! The game's fixed quantities, in integer milli-units.
//!
//! A world unit becomes 1000 milli-units, a degree 1000 millidegrees, a
//! second 1000 milliseconds.

use vstd::prelude::*;

verus! {

/// Width of a lane, which is also the side length of a road tile.
pub const LANE_WIDTH_MILLI: i64 = 4000;

/// Length of the road: 25 tiles of one lane width each.
pub const ROAD_LENGTH_MILLI: i64 = 100000;

/// Distance from a car spawner to the edge of the road.
pub const APPROACH_DISTANCE_MILLI: i64 = 15000;

/// Bounding volume that is definitely larger than the largest car.
pub const MAX_CAR_WIDTH_MILLI: i64 = 4000;

/// Bounding volume that is definitely larger than the largest car.
pub const MAX_CAR_LENGTH_MILLI: i64 = 8000;

/// Bounding volume that is definitely larger than the largest car.
pub const MAX_CAR_HEIGHT_MILLI: i64 = 4000;

/// Yaw of a freshly spawned car model when it drives towards positive x.
pub const INITIAL_CAR_MODEL_YAW_MDEG: u64 = 90000;

/// Forward force applied each physics step to a car below its target speed.
pub const CAR_FORWARD_FORCE_MILLI: i64 = 15000;

/// Friction coefficient of the road surface.
pub const GROUND_FRICTION_MILLI: u32 = 10;

/// Friction coefficient of an untouched wheel.
pub const WHEEL_FRICTION_NORMAL_MILLI: u32 = 150;

/// Friction coefficient of a soaped wheel.
pub const WHEEL_FRICTION_SOAPED_MILLI: u32 = 20;

/// Friction coefficient of a nailed wheel.
pub const WHEEL_FRICTION_NAILED_MILLI: u32 = 600;

/// Friction coefficient of a wheel that is both soaped and nailed.
pub const WHEEL_FRICTION_SOAPED_AND_NAILED_MILLI: u32 = 200;

/// Friction coefficient of a car body.
pub const CAR_BODY_FRICTION_MILLI: u32 = 600;

/// Cars tilted further than this around the y axis get no yaw correction.
pub const MAX_TILT_FOR_TORQUE_CORRECTION_MDEG: u64 = 10000;

/// Cars deviating less than this from their lane heading get no correction.
pub const MIN_DEVIATION_FOR_TORQUE_CORRECTION_MDEG: u64 = 1000;

/// Cars spinning faster than this (per second) get no further correction.
pub const MAX_YAW_RATE_FOR_TORQUE_CORRECTION_MDEG: i64 = 36000;

/// Upper bound on the number of cars alive at once.
pub const MAX_AMOUNT_OF_CARS: usize = 72;

/// Crashes below this impulse magnitude play the small crash sound.
pub const CRASH_SOUND_MAGNITUDE_CUTOFF_1_MILLI: u64 = 10000;

/// Crashes below this impulse magnitude play the medium crash sound.
pub const CRASH_SOUND_MAGNITUDE_CUTOFF_2_MILLI: u64 = 20000;

/// Half extent, per axis, of the volume in which a freshly placed spring
/// wakes sleeping bodies.
pub const SPRING_WAKE_HALF_EXTENT_MILLI: i64 = 2000;

/// Radius of the sphere sensor that triggers a placed spring.
pub const SPRING_SENSOR_RADIUS_MILLI: u32 = 400;

/// Height above the road at which the spring's sensor and head sit.
pub const SPRING_HEAD_HEIGHT_MILLI: i64 = 2000;

/// Shortest pause between two cars of one spawner.
pub const SPAWN_DELAY_MIN_MS: u32 = 2000;

/// Longest pause between two cars of one spawner.
pub const SPAWN_DELAY_MAX_MS: u32 = 5000;

/// Radius of the barrel explosion.
pub const BARREL_BLAST_RADIUS_MILLI: u32 = 15000;

/// Impulse magnitude the barrel explosion applies to each car it reaches.
pub const BARREL_EXPLOSION_STRENGTH_MILLI: u32 = 50000;

/// Score gained per milli-unit of crash impulse, in milli-points.
pub const CRASH_SCORE_MULTIPLIER: u64 = 100;

/// Target speed handed to every car spawner of the road.
pub const SPAWNER_TARGET_SPEED_MILLI: u64 = 5000;

/// Height above the road at which a spawned car is placed.
pub const CAR_SPAWN_HEIGHT_MILLI: i64 = 10;

/// Number of road tiles laid per lane.
pub const TILES_PER_LANE: usize = 25;

} // verus!

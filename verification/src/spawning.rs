//! When and where cars enter the world, and when they leave it.
//!
//! Each driving lane has a spawner standing a fixed distance before the road
//! begins.  A spawner releases a car only while the world holds fewer than
//! the car cap, its own timer has run out, and nothing dynamic blocks the
//! spawn volume.  Cars are removed once they drift far enough from the road
//! centre, or fall below the world.

use vstd::prelude::*;

use crate::car::LaneDirection;
use crate::consts::APPROACH_DISTANCE_MILLI;
use crate::consts::MAX_AMOUNT_OF_CARS;
use crate::consts::MAX_CAR_HEIGHT_MILLI;
use crate::consts::ROAD_LENGTH_MILLI;

verus! {

/// Horizontal distance from the world origin beyond which a car despawns:
/// half the road, plus one and a half times the spawner approach distance.
pub const DESPAWN_RADIUS_MILLI: i64 = 72500;

/// Cars falling below this height despawn.
pub const DESPAWN_FLOOR_MILLI: i64 = -10000;

/// Whether a spawner may release a car this frame: the world must hold fewer
/// cars than the cap, the spawner's timer must have run out, and no dynamic
/// body may stand in the spawn volume.
pub fn may_spawn(car_count: usize, timer_finished: bool, dynamic_blockers: usize) -> (b: bool)
    ensures
        b <==> car_count < MAX_AMOUNT_OF_CARS && timer_finished && dynamic_blockers == 0,
{
    car_count < MAX_AMOUNT_OF_CARS && timer_finished && dynamic_blockers == 0
}

/// Where the spawner of a lane stands: a fixed distance before the road on
/// the side the lane drives away from, at half the car bounding height, on
/// the z line handed over (the lane's far edge).
pub fn spawner_position_milli(dir: LaneDirection, lane_edge_z_milli: i64) -> (p: (i64, i64, i64))
    ensures
        p.0 == -dir.spec_sign() * (ROAD_LENGTH_MILLI / 2 + APPROACH_DISTANCE_MILLI),
        p.1 == MAX_CAR_HEIGHT_MILLI / 2,
        p.2 == lane_edge_z_milli,
{
    let x: i64 = -dir.sign() * (ROAD_LENGTH_MILLI / 2 + APPROACH_DISTANCE_MILLI);
    (x, MAX_CAR_HEIGHT_MILLI / 2, lane_edge_z_milli)
}

/// Whether a car at the given position has left the visible world: its
/// horizontal distance from the origin exceeds the despawn radius, or it has
/// fallen below the floor.
pub fn should_despawn(x_milli: i64, y_milli: i64, z_milli: i64) -> (b: bool)
    requires
        -1000000000 <= x_milli <= 1000000000,
        -1000000000 <= z_milli <= 1000000000,
    ensures
        b <==> x_milli * x_milli + z_milli * z_milli > DESPAWN_RADIUS_MILLI * DESPAWN_RADIUS_MILLI
            || y_milli < DESPAWN_FLOOR_MILLI,
{
    proof {
        assert(x_milli * x_milli <= 1000000000000000000) by (nonlinear_arith)
            requires
                -1000000000 <= x_milli <= 1000000000,
        ;
        assert(z_milli * z_milli <= 1000000000000000000) by (nonlinear_arith)
            requires
                -1000000000 <= z_milli <= 1000000000,
        ;
        assert(x_milli * x_milli >= 0) by (nonlinear_arith);
        assert(z_milli * z_milli >= 0) by (nonlinear_arith);
    }
    let dist2: i64 = x_milli * x_milli + z_milli * z_milli;
    dist2 > DESPAWN_RADIUS_MILLI * DESPAWN_RADIUS_MILLI || y_milli < DESPAWN_FLOOR_MILLI
}

} // verus!

//! The path follower: the player entity converges toward an ordered,
//! immutable sequence of 2D waypoints in the ground (x, z) plane. Each frame
//! either moves the player its travel budget toward the current waypoint and
//! reorients it, or — when the waypoint is within reach — advances the
//! waypoint index. Once the index has passed the last waypoint, the tick
//! reports that the path is complete.

use vstd::prelude::*;
use vstd::arithmetic::div_mod::{
    lemma_div_by_multiple, lemma_div_is_ordered, lemma_div_pos_is_pos,
};
use crate::fixed::{SCALE, isqrt, is_floor_sqrt, floor_sqrt};
use crate::balance::Player;

verus! {

/// Largest coordinate magnitude the movement arithmetic is proved for.
pub const COORD_LIMIT: i64 = 1_000_000_000;

/// Largest speed the movement arithmetic is proved for.
pub const SPEED_LIMIT: i64 = 1_000_000;

/// Largest frame time, in milliseconds, the movement arithmetic is proved for.
pub const FRAME_LIMIT: i64 = 1_000_000;

/// The ordered, immutable waypoint list, as fixed-point (x, z) pairs.
pub struct PlayerPath {
    pub waypoints: Vec<(i64, i64)>,
}

impl PlayerPath {
    /// Every waypoint lies within the coordinate range the movement
    /// arithmetic is proved for.
    pub open spec fn wf(self) -> bool {
        forall|i: int| 0 <= i < self.waypoints@.len()
            ==> -COORD_LIMIT <= (#[trigger] self.waypoints@[i]).0 <= COORD_LIMIT
                && -COORD_LIMIT <= self.waypoints@[i].1 <= COORD_LIMIT
    }

    /// The patrol route the game ships with.
    pub fn default_path() -> (p: PlayerPath)
        ensures
            p.wf(),
            p.waypoints@ =~= seq![
                (1000i64, 1000i64),
                (2000i64, 3000i64),
                (2000i64, -2000i64),
                (5000i64, -1000i64),
                (-2000i64, -1000i64),
                (2000i64, 0i64),
                (6000i64, 0i64),
                (4000i64, 3000i64),
                (0i64, 0i64),
            ],
    {
        let waypoints: Vec<(i64, i64)> = vec![
            (1000, 1000),
            (2000, 3000),
            (2000, -2000),
            (5000, -1000),
            (-2000, -1000),
            (2000, 0),
            (6000, 0),
            (4000, 3000),
            (0, 0),
        ];
        PlayerPath { waypoints }
    }
}

/// The player entity's placement: a position in fixed-point world
/// coordinates and the ground-plane direction it faces.
pub struct PlayerTransform {
    pub x: i64,
    pub y: i64,
    pub z: i64,
    pub facing_x: i64,
    pub facing_z: i64,
}

#[derive(Clone, Copy, PartialEq, Eq, Structural, Debug)]
pub enum MoveOutcome {
    /// The player moved its travel budget toward the current waypoint.
    Stepped,
    /// The current waypoint was within reach; the index advanced instead.
    WaypointReached,
    /// The index is already past the last waypoint; the game should end.
    PathComplete,
}

/// Squared ground-plane distance.
pub open spec fn dist_sq(dx: int, dz: int) -> int {
    dx * dx + dz * dz
}

/// One axis of the movement step: the axis delta scaled by the ratio of the
/// travel budget to the distance, truncated toward zero.
pub open spec fn axis_step(d: int, delta: int, dist: int) -> int {
    if d >= 0 {
        d * delta / dist
    } else {
        -((-d) * delta / dist)
    }
}

/// The travel budget of one frame: speed times frame time.
pub open spec fn travel_budget(speed: int, delta_ms: int) -> int {
    speed * delta_ms / (SCALE as int)
}

/// An axis step toward the waypoint never overshoots the axis delta, and
/// never moves away from it.
proof fn lemma_axis_step_bounded(d: int, delta: int, dist: int)
    requires
        0 <= delta <= dist,
        1 <= dist,
    ensures
        d >= 0 ==> 0 <= axis_step(d, delta, dist) <= d,
        d < 0 ==> d <= axis_step(d, delta, dist) <= 0,
{
    let a = if d >= 0 { d } else { -d };
    assert(a * delta <= a * dist) by (nonlinear_arith)
        requires 0 <= a && delta <= dist;
    lemma_div_pos_is_pos(a * delta, dist);
    lemma_div_is_ordered(a * delta, a * dist, dist);
    lemma_div_by_multiple(a, dist);
}

/// One frame of the path follower. With the current waypoint farther away
/// than this frame's travel budget, the player moves the budget toward it and
/// turns to face it; with the waypoint within reach, the waypoint index
/// advances by one; with the index past the last waypoint, nothing moves and
/// the result asks for the terminal state.
pub fn move_player(
    path: &PlayerPath,
    transform: &mut PlayerTransform,
    player: &mut Player,
    delta_ms: i64,
) -> (outcome: MoveOutcome)
    requires
        path.wf(),
        old(player).path_index <= path.waypoints@.len(),
        0 <= old(player).speed <= SPEED_LIMIT,
        0 <= delta_ms <= FRAME_LIMIT,
        -COORD_LIMIT <= old(transform).x <= COORD_LIMIT,
        -COORD_LIMIT <= old(transform).z <= COORD_LIMIT,
    ensures
        final(player).balance == old(player).balance,
        final(player).speed == old(player).speed,
        final(player).disrupt_timer == old(player).disrupt_timer,
        final(transform).y == old(transform).y,
        old(player).path_index <= final(player).path_index <= old(player).path_index + 1,
        final(player).path_index <= path.waypoints@.len(),
        (outcome == MoveOutcome::PathComplete) <==> old(player).path_index
            == path.waypoints@.len(),
        outcome == MoveOutcome::PathComplete ==> *final(transform) == *old(transform)
            && final(player).path_index == old(player).path_index,
        ({
            let wp = path.waypoints@[old(player).path_index as int];
            let dx = wp.0 - old(transform).x;
            let dz = wp.1 - old(transform).z;
            let delta = travel_budget(old(player).speed as int, delta_ms as int);
            let dist = floor_sqrt(dist_sq(dx, dz));
            &&& (outcome == MoveOutcome::Stepped) <==> (old(player).path_index
                < path.waypoints@.len() && dist_sq(dx, dz) > delta * delta)
            &&& outcome == MoveOutcome::Stepped ==> {
                &&& final(player).path_index == old(player).path_index
                &&& final(transform).x == old(transform).x + axis_step(dx, delta, dist)
                &&& final(transform).z == old(transform).z + axis_step(dz, delta, dist)
                &&& final(transform).facing_x == wp.0 - final(transform).x
                &&& final(transform).facing_z == wp.1 - final(transform).z
                &&& -COORD_LIMIT <= final(transform).x <= COORD_LIMIT
                &&& -COORD_LIMIT <= final(transform).z <= COORD_LIMIT
            }
            &&& outcome == MoveOutcome::WaypointReached ==> {
                &&& final(player).path_index == old(player).path_index + 1
                &&& *final(transform) == *old(transform)
            }
        }),
{
    proof {
        assert(player.speed * delta_ms <= SPEED_LIMIT * FRAME_LIMIT) by (nonlinear_arith)
            requires 0 <= player.speed <= SPEED_LIMIT && 0 <= delta_ms <= FRAME_LIMIT;
        assert(player.speed * delta_ms >= 0) by (nonlinear_arith)
            requires 0 <= player.speed && 0 <= delta_ms;
        lemma_div_pos_is_pos(player.speed * delta_ms, SCALE as int);
        lemma_div_is_ordered(player.speed * delta_ms, SPEED_LIMIT * FRAME_LIMIT, SCALE as int);
    }
    let delta = player.speed * delta_ms / SCALE;
    if player.path_index < path.waypoints.len() {
        let (wx, wz) = path.waypoints[player.path_index];
        let dx = wx - transform.x;
        let dz = wz - transform.z;
        proof {
            assert(dx * dx <= 4_000_000_000_000_000_000 && dx * dx >= 0) by (nonlinear_arith)
                requires -2_000_000_000 <= dx <= 2_000_000_000;
            assert(dz * dz <= 4_000_000_000_000_000_000 && dz * dz >= 0) by (nonlinear_arith)
                requires -2_000_000_000 <= dz <= 2_000_000_000;
        }
        let d2 = dx * dx + dz * dz;
        proof {
            assert(delta * delta >= 0) by (nonlinear_arith) requires delta >= 0;
            assert(delta * delta <= 1_000_000_000_000_000_000) by (nonlinear_arith)
                requires 0 <= delta <= 1_000_000_000;
        }
        if d2 > delta * delta {
            let dist_u = isqrt(d2 as u64);
            proof {
                assert(dist_u < 0x1_0000_0000) by (nonlinear_arith)
                    requires is_floor_sqrt(d2 as int, dist_u as int)
                        && d2 <= 8_000_000_000_000_000_000;
            }
            let dist = dist_u as i64;
            proof {
                assert(is_floor_sqrt(d2 as int, dist as int));
                assert(dist >= 1) by (nonlinear_arith)
                    requires is_floor_sqrt(d2 as int, dist as int) && d2 >= 1;
                assert(dist >= delta) by (nonlinear_arith)
                    requires is_floor_sqrt(d2 as int, dist as int) && d2 > delta * delta
                        && delta >= 0;
                lemma_axis_step_bounded(dx as int, delta as int, dist as int);
                lemma_axis_step_bounded(dz as int, delta as int, dist as int);
                assert(-2_000_000_000_000_000_000 <= dx * delta <= 2_000_000_000_000_000_000
                    && -2_000_000_000_000_000_000 <= (-dx) * delta
                        <= 2_000_000_000_000_000_000) by (nonlinear_arith)
                    requires -2_000_000_000 <= dx <= 2_000_000_000 && 0 <= delta
                        <= 1_000_000_000;
                assert(-2_000_000_000_000_000_000 <= dz * delta <= 2_000_000_000_000_000_000
                    && -2_000_000_000_000_000_000 <= (-dz) * delta
                        <= 2_000_000_000_000_000_000) by (nonlinear_arith)
                    requires -2_000_000_000 <= dz <= 2_000_000_000 && 0 <= delta
                        <= 1_000_000_000;
            }
            let mx = if dx >= 0 { dx * delta / dist } else { -((-dx) * delta / dist) };
            let mz = if dz >= 0 { dz * delta / dist } else { -((-dz) * delta / dist) };
            transform.x = transform.x + mx;
            transform.z = transform.z + mz;
            transform.facing_x = wx - transform.x;
            transform.facing_z = wz - transform.z;
            MoveOutcome::Stepped
        } else {
            player.path_index = player.path_index + 1;
            MoveOutcome::WaypointReached
        }
    } else {
        MoveOutcome::PathComplete
    }
}

} // verus!

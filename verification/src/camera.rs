//! Keyboard steering: the free camera pans along its ground-plane forward and
//! left directions and yaws with the rotate keys, and the prototype's free
//! player walks relative to the camera. Directions come in as fixed-point
//! ground-plane vectors (the engine's transform basis with the vertical
//! component dropped); they are normalized here by integer square root.

use vstd::prelude::*;
use vstd::arithmetic::div_mod::{
    lemma_div_by_multiple, lemma_div_is_ordered, lemma_div_pos_is_pos,
};
use crate::fixed::{SCALE, isqrt, is_floor_sqrt, floor_sqrt};
use crate::path::{dist_sq, axis_step, FRAME_LIMIT};

verus! {

/// Camera pan speed, world units per second in fixed-point ticks.
pub const CAMERA_SPEED: i64 = 3000;

/// Camera yaw speed in fixed-point ticks per second.
pub const CAMERA_ROTATE_SPEED: i64 = 300;

/// Largest direction-component magnitude the steering arithmetic is proved
/// for.
pub const DIR_LIMIT: i64 = 1_000_000;

/// Key states the steering reads each frame.
#[derive(Clone, Copy, PartialEq, Eq, Structural, Debug)]
pub struct SteerKeys {
    pub forward: bool,
    pub back: bool,
    pub left: bool,
    pub right: bool,
    pub rotate_left: bool,
    pub rotate_right: bool,
}

/// A step of length `delta` (truncated per axis) along the direction
/// `(dx, dz)`: the direction normalized and scaled in one division.
pub fn step_along(dx: i64, dz: i64, delta: i64) -> (m: (i64, i64))
    requires
        -DIR_LIMIT <= dx <= DIR_LIMIT,
        -DIR_LIMIT <= dz <= DIR_LIMIT,
        (dx != 0 || dz != 0),
        0 <= delta <= 1_000_000_000,
    ensures
        m.0 == axis_step(dx as int, delta as int, floor_sqrt(dist_sq(dx as int, dz as int))),
        m.1 == axis_step(dz as int, delta as int, floor_sqrt(dist_sq(dx as int, dz as int))),
        -delta <= m.0 <= delta,
        -delta <= m.1 <= delta,
{
    proof {
        assert(0 <= dx * dx <= 1_000_000_000_000) by (nonlinear_arith)
            requires -DIR_LIMIT <= dx <= DIR_LIMIT;
        assert(0 <= dz * dz <= 1_000_000_000_000) by (nonlinear_arith)
            requires -DIR_LIMIT <= dz <= DIR_LIMIT;
        assert(dx * dx + dz * dz > 0) by (nonlinear_arith)
            requires dx != 0 || dz != 0;
    }
    let d2 = dx * dx + dz * dz;
    let dist_u = isqrt(d2 as u64);
    proof {
        assert(dist_u < 0x1_0000_0000) by (nonlinear_arith)
            requires is_floor_sqrt(d2 as int, dist_u as int) && d2 <= 2_000_000_000_000;
    }
    let dist = dist_u as i64;
    proof {
        assert(dist >= 1) by (nonlinear_arith)
            requires is_floor_sqrt(d2 as int, dist as int) && d2 >= 1;
        lemma_step_component_bounded(dx as int, delta as int, dist as int, d2 as int);
        lemma_step_component_bounded(dz as int, delta as int, dist as int, d2 as int);
        assert(-1_000_000_000_000_000_000 <= dx * delta <= 1_000_000_000_000_000_000
            && -1_000_000_000_000_000_000 <= (-dx) * delta
                <= 1_000_000_000_000_000_000) by (nonlinear_arith)
            requires -DIR_LIMIT <= dx <= DIR_LIMIT && 0 <= delta <= 1_000_000_000;
        assert(-1_000_000_000_000_000_000 <= dz * delta <= 1_000_000_000_000_000_000
            && -1_000_000_000_000_000_000 <= (-dz) * delta
                <= 1_000_000_000_000_000_000) by (nonlinear_arith)
            requires -DIR_LIMIT <= dz <= DIR_LIMIT && 0 <= delta <= 1_000_000_000;
    }
    let mx = if dx >= 0 { dx * delta / dist } else { -((-dx) * delta / dist) };
    let mz = if dz >= 0 { dz * delta / dist } else { -((-dz) * delta / dist) };
    (mx, mz)
}

/// Scaling an axis whose magnitude is at most the vector's length cannot
/// produce a step longer than `delta`.
proof fn lemma_step_component_bounded(d: int, delta: int, dist: int, d2: int)
    requires
        1 <= dist,
        0 <= delta,
        is_floor_sqrt(d2, dist),
        d * d <= d2,
    ensures
        d >= 0 ==> 0 <= axis_step(d, delta, dist) <= delta,
        d < 0 ==> -delta <= axis_step(d, delta, dist) <= 0,
{
    let a = if d >= 0 { d } else { -d };
    assert(a <= dist) by (nonlinear_arith)
        requires (d >= 0 ==> a == d) && (d < 0 ==> a == -d) && d * d <= d2 && d2 < (dist + 1)
            * (dist + 1) && 1 <= dist;
    assert(a * delta <= dist * delta) by (nonlinear_arith)
        requires a <= dist && 0 <= delta;
    assert(a * delta >= 0) by (nonlinear_arith)
        requires 0 <= a && 0 <= delta;
    lemma_div_pos_is_pos(a * delta, dist);
    lemma_div_is_ordered(a * delta, dist * delta, dist);
    lemma_div_by_multiple(delta, dist);
    assert(dist * delta == delta * dist) by (nonlinear_arith);
}

/// One frame of the free-camera controls: pans along the camera's flattened
/// forward and left directions for the held keys and reports the yaw to apply
/// for the rotate keys.
pub fn camera_controls(
    pos: &mut crate::scene::Vec3Fx,
    forward: (i64, i64),
    left: (i64, i64),
    keys: SteerKeys,
    delta_ms: i64,
) -> (yaw_delta: i64)
    requires
        -DIR_LIMIT <= forward.0 <= DIR_LIMIT,
        -DIR_LIMIT <= forward.1 <= DIR_LIMIT,
        (forward.0 != 0 || forward.1 != 0),
        -DIR_LIMIT <= left.0 <= DIR_LIMIT,
        -DIR_LIMIT <= left.1 <= DIR_LIMIT,
        (left.0 != 0 || left.1 != 0),
        0 <= delta_ms <= FRAME_LIMIT,
        -1_000_000_000_000 <= old(pos).x <= 1_000_000_000_000,
        -1_000_000_000_000 <= old(pos).z <= 1_000_000_000_000,
    ensures
        final(pos).y == old(pos).y,
        ({
            let step = CAMERA_SPEED * delta_ms / (SCALE as int);
            let dist_f = floor_sqrt(dist_sq(forward.0 as int, forward.1 as int));
            let dist_l = floor_sqrt(dist_sq(left.0 as int, left.1 as int));
            &&& final(pos).x == old(pos).x + (if keys.forward {
                axis_step(forward.0 as int, step, dist_f)
            } else {
                0int
            }) - (if keys.back {
                axis_step(forward.0 as int, step, dist_f)
            } else {
                0int
            }) + (if keys.left {
                axis_step(left.0 as int, step, dist_l)
            } else {
                0int
            }) - (if keys.right {
                axis_step(left.0 as int, step, dist_l)
            } else {
                0int
            })
            &&& final(pos).z == old(pos).z + (if keys.forward {
                axis_step(forward.1 as int, step, dist_f)
            } else {
                0int
            }) - (if keys.back {
                axis_step(forward.1 as int, step, dist_f)
            } else {
                0int
            }) + (if keys.left {
                axis_step(left.1 as int, step, dist_l)
            } else {
                0int
            }) - (if keys.right {
                axis_step(left.1 as int, step, dist_l)
            } else {
                0int
            })
            &&& yaw_delta == (if keys.rotate_left {
                CAMERA_ROTATE_SPEED * delta_ms / (SCALE as int)
            } else {
                0int
            }) - (if keys.rotate_right {
                CAMERA_ROTATE_SPEED * delta_ms / (SCALE as int)
            } else {
                0int
            })
        }),
{
    proof {
        assert(CAMERA_SPEED * delta_ms <= 3_000_000_000) by (nonlinear_arith)
            requires 0 <= delta_ms <= FRAME_LIMIT;
        assert(CAMERA_SPEED * delta_ms >= 0) by (nonlinear_arith)
            requires 0 <= delta_ms;
        lemma_div_pos_is_pos(CAMERA_SPEED * delta_ms, SCALE as int);
        lemma_div_is_ordered(CAMERA_SPEED * delta_ms, 3_000_000_000, SCALE as int);
        assert(CAMERA_ROTATE_SPEED * delta_ms <= 300_000_000_000) by (nonlinear_arith)
            requires 0 <= delta_ms <= FRAME_LIMIT;
        assert(CAMERA_ROTATE_SPEED * delta_ms >= 0) by (nonlinear_arith)
            requires 0 <= delta_ms;
        lemma_div_pos_is_pos(CAMERA_ROTATE_SPEED * delta_ms, SCALE as int);
        lemma_div_is_ordered(CAMERA_ROTATE_SPEED * delta_ms, 300_000_000_000, SCALE as int);
    }
    let step = CAMERA_SPEED * delta_ms / SCALE;
    let (fx, fz) = step_along(forward.0, forward.1, step);
    let (lx, lz) = step_along(left.0, left.1, step);
    if keys.forward {
        pos.x = pos.x + fx;
        pos.z = pos.z + fz;
    }
    if keys.back {
        pos.x = pos.x - fx;
        pos.z = pos.z - fz;
    }
    if keys.left {
        pos.x = pos.x + lx;
        pos.z = pos.z + lz;
    }
    if keys.right {
        pos.x = pos.x - lx;
        pos.z = pos.z - lz;
    }
    let rotate = CAMERA_ROTATE_SPEED * delta_ms / SCALE;
    let mut yaw: i64 = 0;
    if keys.rotate_left {
        yaw = yaw + rotate;
    }
    if keys.rotate_right {
        yaw = yaw - rotate;
    }
    yaw
}

/// One frame of the prototype's camera-relative walk: sums the camera's
/// flattened basis directions for the held keys, and when the sum is nonzero
/// walks the frame's travel budget along it and faces that way.
pub fn player_movement(
    transform: &mut crate::path::PlayerTransform,
    forward: (i64, i64),
    left: (i64, i64),
    keys: SteerKeys,
    speed: i64,
    delta_ms: i64,
) -> (moved: bool)
    requires
        -DIR_LIMIT <= forward.0 <= DIR_LIMIT,
        -DIR_LIMIT <= forward.1 <= DIR_LIMIT,
        -DIR_LIMIT <= left.0 <= DIR_LIMIT,
        -DIR_LIMIT <= left.1 <= DIR_LIMIT,
        0 <= speed <= crate::path::SPEED_LIMIT,
        0 <= delta_ms <= FRAME_LIMIT,
        -1_000_000_000_000 <= old(transform).x <= 1_000_000_000_000,
        -1_000_000_000_000 <= old(transform).z <= 1_000_000_000_000,
    ensures
        final(transform).y == old(transform).y,
        ({
            let dir_x = (if keys.forward { forward.0 as int } else { 0int }) - (if keys.back {
                forward.0 as int
            } else {
                0int
            }) + (if keys.left { left.0 as int } else { 0int }) - (if keys.right {
                left.0 as int
            } else {
                0int
            });
            let dir_z = (if keys.forward { forward.1 as int } else { 0int }) - (if keys.back {
                forward.1 as int
            } else {
                0int
            }) + (if keys.left { left.1 as int } else { 0int }) - (if keys.right {
                left.1 as int
            } else {
                0int
            });
            let delta = speed * delta_ms / (SCALE as int);
            let dist = floor_sqrt(dist_sq(dir_x, dir_z));
            &&& moved == (dir_x != 0 || dir_z != 0)
            &&& moved ==> final(transform).x == old(transform).x + axis_step(dir_x, delta, dist)
                && final(transform).z == old(transform).z + axis_step(dir_z, delta, dist)
                && final(transform).facing_x == dir_x && final(transform).facing_z == dir_z
            &&& !moved ==> *final(transform) == *old(transform)
        }),
{
    proof {
        assert(speed * delta_ms <= 1_000_000_000_000) by (nonlinear_arith)
            requires 0 <= speed <= crate::path::SPEED_LIMIT && 0 <= delta_ms <= FRAME_LIMIT;
        assert(speed * delta_ms >= 0) by (nonlinear_arith)
            requires 0 <= speed && 0 <= delta_ms;
        lemma_div_pos_is_pos(speed * delta_ms, SCALE as int);
        lemma_div_is_ordered(speed * delta_ms, 1_000_000_000_000, SCALE as int);
    }
    let delta = speed * delta_ms / SCALE;
    let mut dir_x: i64 = 0;
    let mut dir_z: i64 = 0;
    if keys.forward {
        dir_x = dir_x + forward.0;
        dir_z = dir_z + forward.1;
    }
    if keys.back {
        dir_x = dir_x - forward.0;
        dir_z = dir_z - forward.1;
    }
    if keys.left {
        dir_x = dir_x + left.0;
        dir_z = dir_z + left.1;
    }
    if keys.right {
        dir_x = dir_x - left.0;
        dir_z = dir_z - left.1;
    }
    if dir_x != 0 || dir_z != 0 {
        proof {
            assert(0 <= dir_x * dir_x <= 4_000_000_000_000) by (nonlinear_arith)
                requires -2_000_000 <= dir_x <= 2_000_000;
            assert(0 <= dir_z * dir_z <= 4_000_000_000_000) by (nonlinear_arith)
                requires -2_000_000 <= dir_z <= 2_000_000;
            assert(dir_x * dir_x + dir_z * dir_z > 0) by (nonlinear_arith)
                requires dir_x != 0 || dir_z != 0;
        }
        let d2 = dir_x * dir_x + dir_z * dir_z;
        let dist_u = isqrt(d2 as u64);
        proof {
            assert(dist_u < 0x1_0000_0000) by (nonlinear_arith)
                requires is_floor_sqrt(d2 as int, dist_u as int) && d2 <= 8_000_000_000_000;
        }
        let dist = dist_u as i64;
        proof {
            assert(dist >= 1) by (nonlinear_arith)
                requires is_floor_sqrt(d2 as int, dist as int) && d2 >= 1;
            lemma_step_component_bounded(dir_x as int, delta as int, dist as int, d2 as int);
            lemma_step_component_bounded(dir_z as int, delta as int, dist as int, d2 as int);
            assert(-2_000_000_000_000_000_000 <= dir_x * delta <= 2_000_000_000_000_000_000
                && -2_000_000_000_000_000_000 <= (-dir_x) * delta
                    <= 2_000_000_000_000_000_000) by (nonlinear_arith)
                requires -2_000_000 <= dir_x <= 2_000_000 && 0 <= delta <= 1_000_000_000;
            assert(-2_000_000_000_000_000_000 <= dir_z * delta <= 2_000_000_000_000_000_000
                && -2_000_000_000_000_000_000 <= (-dir_z) * delta
                    <= 2_000_000_000_000_000_000) by (nonlinear_arith)
                requires -2_000_000 <= dir_z <= 2_000_000 && 0 <= delta <= 1_000_000_000;
        }
        let mx = if dir_x >= 0 { dir_x * delta / dist } else { -((-dir_x) * delta / dist) };
        let mz = if dir_z >= 0 { dir_z * delta / dist } else { -((-dir_z) * delta / dist) };
        transform.x = transform.x + mx;
        transform.z = transform.z + mz;
        transform.facing_x = dir_x;
        transform.facing_z = dir_z;
        true
    } else {
        false
    }
}

} // verus!

//! The balance minigame: the player carries a balance score centered on
//! [`BALANCE_BASE`], and a periodic disruption draws a random rotation for the
//! handlebar, undoes the previous draw's rotation, applies the new one, and
//! remaps the draw linearly onto the balance score.

use vstd::prelude::*;
use vstd::arithmetic::div_mod::lemma_div_multiples_vanish;
use crate::fixed::map_range;
use crate::timer::RepeatTimer;
use crate::rng::draw_in_range;

verus! {

/// World units the player advances per second, in fixed-point ticks.
pub const PLAYER_SPEED: i64 = 800;

/// The balance score the game considers perfectly centered.
pub const BALANCE_BASE: i64 = 90_000;

/// Half-width of the tolerance band around [`BALANCE_BASE`] within which the
/// balance still counts as centered.
pub const BALANCE_WIGGLE_ROOM: i64 = 3_000;

/// Magnitude bound of the random disruption draw (a local-z rotation).
pub const DISRUPT_RANGE: i64 = 200;

/// Milliseconds between two disruption ticks.
pub const DISRUPT_PERIOD_MS: i64 = 5_000;

pub struct Player {
    pub balance: i64,
    pub speed: i64,
    pub path_index: usize,
    pub disrupt_timer: RepeatTimer,
}

/// The handlebar keeps its accumulated local-z rotation together with the
/// previous disruption draw, so that each disruption can first undo the
/// previous rotation and then apply the new one.
pub struct Handlebar {
    pub prev_rotation: i64,
    pub z_rotation: i64,
}

impl Player {
    pub fn new() -> (p: Player)
        ensures
            p.balance == BALANCE_BASE,
            p.speed == PLAYER_SPEED,
            p.path_index == 0,
            p.disrupt_timer.wf(),
            p.disrupt_timer.period_ms == DISRUPT_PERIOD_MS,
            p.disrupt_timer.elapsed_ms == 0,
    {
        Player {
            balance: BALANCE_BASE,
            speed: PLAYER_SPEED,
            path_index: 0,
            disrupt_timer: RepeatTimer::new(DISRUPT_PERIOD_MS),
        }
    }
}

impl Handlebar {
    pub fn new() -> (h: Handlebar)
        ensures
            h.prev_rotation == 0,
            h.z_rotation == 0,
    {
        Handlebar { prev_rotation: 0, z_rotation: 0 }
    }
}

/// The accumulated rotation after undoing the previous draw `prev` and
/// applying a new draw `r` on top of rotation `z`.
pub open spec fn rotate_undo_apply(z: int, prev: int, r: int) -> int {
    z - prev + r
}

/// The balance score a disruption draw `r` is remapped to: the linear image
/// of `[-DISRUPT_RANGE, DISRUPT_RANGE]` onto the band from half the base to
/// one-and-a-half times the base.
pub open spec fn disrupted_balance(r: int) -> int {
    (r - (-DISRUPT_RANGE)) * ((BALANCE_BASE + BALANCE_BASE / 2) - (BALANCE_BASE - BALANCE_BASE / 2))
        / (DISRUPT_RANGE - (-DISRUPT_RANGE)) + (BALANCE_BASE - BALANCE_BASE / 2)
}

/// The remap is the straight line `BALANCE_BASE + r * (BALANCE_BASE / 2) /
/// DISRUPT_RANGE`, and every draw within the disruption range lands in the
/// band from half the base to one-and-a-half times the base.
pub proof fn lemma_disrupted_balance_linear(r: int)
    requires
        -DISRUPT_RANGE <= r <= DISRUPT_RANGE,
    ensures
        disrupted_balance(r) == BALANCE_BASE + r * (BALANCE_BASE / 2) / (DISRUPT_RANGE as int),
        BALANCE_BASE / 2 <= disrupted_balance(r) <= BALANCE_BASE + BALANCE_BASE / 2,
{
    assert((r + 200) * 90_000 == 400 * (225 * (r + 200))) by (nonlinear_arith);
    lemma_div_multiples_vanish(225 * (r + 200), 400);
    assert(r * 45_000 == 200 * (225 * r)) by (nonlinear_arith);
    lemma_div_multiples_vanish(225 * r, 200);
}

/// Undoing and reapplying the same draw is idempotent: applying the same
/// rotation value twice in a row leaves the net rotation unchanged.
pub proof fn lemma_repeated_draw_keeps_rotation(z: int, prev: int, r: int)
    ensures
        rotate_undo_apply(rotate_undo_apply(z, prev, r), r, r) == rotate_undo_apply(z, prev, r),
{
}

/// Applies one disruption draw `r`: undoes the handlebar's previous rotation,
/// applies `r`, records it, and remaps `r` onto the balance score.
pub fn disrupt_apply(player: &mut Player, handlebar: &mut Handlebar, r: i64)
    requires
        -DISRUPT_RANGE <= r < DISRUPT_RANGE,
        i64::MIN + DISRUPT_RANGE <= old(handlebar).z_rotation - old(handlebar).prev_rotation,
        old(handlebar).z_rotation - old(handlebar).prev_rotation <= i64::MAX - DISRUPT_RANGE,
    ensures
        final(player).balance == disrupted_balance(r as int),
        final(player).speed == old(player).speed,
        final(player).path_index == old(player).path_index,
        final(player).disrupt_timer == old(player).disrupt_timer,
        final(handlebar).prev_rotation == r,
        final(handlebar).z_rotation == rotate_undo_apply(
            old(handlebar).z_rotation as int,
            old(handlebar).prev_rotation as int,
            r as int,
        ),
{
    handlebar.z_rotation = handlebar.z_rotation - handlebar.prev_rotation;
    handlebar.z_rotation = handlebar.z_rotation + r;
    handlebar.prev_rotation = r;

    let out_min = BALANCE_BASE - BALANCE_BASE / 2;
    let out_max = BALANCE_BASE + BALANCE_BASE / 2;
    assert((r - (-DISRUPT_RANGE)) * (out_max - out_min) <= 400 * 90_000) by (nonlinear_arith)
        requires -DISRUPT_RANGE <= r < DISRUPT_RANGE && out_max - out_min == 90_000;
    assert((r - (-DISRUPT_RANGE)) * (out_max - out_min) >= 0) by (nonlinear_arith)
        requires -DISRUPT_RANGE <= r && out_max - out_min == 90_000;
    player.balance = map_range(r, -DISRUPT_RANGE, DISRUPT_RANGE, out_min, out_max);
}

/// One frame of the disruptor system: advances the disruption timer by the
/// frame time and, when it fires, draws a random rotation and applies it. The
/// result says whether a disruption happened this frame (the caller then
/// emits the disruption notification).
pub fn disrupt_tick(
    player: &mut Player,
    handlebar: &mut Handlebar,
    rng: &mut rand_chacha::ChaCha8Rng,
    delta_ms: i64,
) -> (disrupted: bool)
    requires
        old(player).disrupt_timer.wf(),
        0 <= delta_ms,
        old(player).disrupt_timer.elapsed_ms + delta_ms <= i64::MAX,
        i64::MIN + DISRUPT_RANGE <= old(handlebar).z_rotation - old(handlebar).prev_rotation,
        old(handlebar).z_rotation - old(handlebar).prev_rotation <= i64::MAX - DISRUPT_RANGE,
    ensures
        disrupted == old(player).disrupt_timer.spec_fires(delta_ms as int),
        final(player).disrupt_timer.wf(),
        final(player).disrupt_timer.period_ms == old(player).disrupt_timer.period_ms,
        final(player).speed == old(player).speed,
        final(player).path_index == old(player).path_index,
        disrupted ==> -DISRUPT_RANGE <= final(handlebar).prev_rotation < DISRUPT_RANGE,
        disrupted ==> final(player).balance == disrupted_balance(
            final(handlebar).prev_rotation as int,
        ),
        disrupted ==> final(handlebar).z_rotation == rotate_undo_apply(
            old(handlebar).z_rotation as int,
            old(handlebar).prev_rotation as int,
            final(handlebar).prev_rotation as int,
        ),
        !disrupted ==> final(player).balance == old(player).balance
            && *final(handlebar) == *old(handlebar),
{
    let fired = player.disrupt_timer.tick(delta_ms);
    if fired {
        let r = draw_in_range(rng, -DISRUPT_RANGE, DISRUPT_RANGE);
        disrupt_apply(player, handlebar, r);
    }
    fired
}

} // verus!

//! Discrete controller events: each left or right measurement shifts the
//! balance by a fixed step and turns a visual indicator by a half-turn in the
//! corresponding direction. Whenever the balance lands inside the tolerance
//! band around the base, the handlebar rotation is undone and reset to zero.

use vstd::prelude::*;
use crate::balance::{Player, Handlebar, BALANCE_BASE, BALANCE_WIGGLE_ROOM};

verus! {

/// Balance shift of one controller measurement.
pub const MEASURE_STEP: i64 = 30_000;

#[derive(Clone, Copy, PartialEq, Eq, Structural)]
pub enum MeasureEvent {
    Left,
    Right,
}

/// The rotation indicator. It only ever turns by half-turns, so its
/// orientation is the signed count of half-turns applied so far.
pub struct Indicator {
    pub half_turns: i64,
}

impl Indicator {
    pub fn new() -> (ind: Indicator)
        ensures
            ind.half_turns == 0,
    {
        Indicator { half_turns: 0 }
    }
}

/// Whether a balance score lies strictly inside the tolerance band around the
/// base, which the game draws as "centered".
pub open spec fn spec_in_tolerance(balance: int) -> bool {
    BALANCE_BASE - BALANCE_WIGGLE_ROOM < balance < BALANCE_BASE + BALANCE_WIGGLE_ROOM
}

/// Executable form of [`spec_in_tolerance`].
pub fn in_tolerance(balance: i64) -> (r: bool)
    ensures
        r == spec_in_tolerance(balance as int),
{
    let lower_bound = BALANCE_BASE - BALANCE_WIGGLE_ROOM;
    let upper_bound = BALANCE_BASE + BALANCE_WIGGLE_ROOM;
    balance > lower_bound && balance < upper_bound
}

/// The part of the game state a controller event touches, as unbounded
/// integers.
pub struct ControlState {
    pub balance: int,
    pub half_turns: int,
    pub bar_z: int,
    pub bar_prev: int,
}

pub open spec fn control_view(p: Player, h: Handlebar, ind: Indicator) -> ControlState {
    ControlState {
        balance: p.balance as int,
        half_turns: ind.half_turns as int,
        bar_z: h.z_rotation as int,
        bar_prev: h.prev_rotation as int,
    }
}

/// What one controller event does: shift the balance and the indicator, then
/// reset the handlebar if the balance became centered.
pub open spec fn apply_event(s: ControlState, e: MeasureEvent) -> ControlState {
    let shifted = match e {
        MeasureEvent::Left => ControlState {
            balance: s.balance + MEASURE_STEP,
            half_turns: s.half_turns + 1,
            ..s
        },
        MeasureEvent::Right => ControlState {
            balance: s.balance - MEASURE_STEP,
            half_turns: s.half_turns - 1,
            ..s
        },
    };
    if spec_in_tolerance(shifted.balance) {
        ControlState { bar_z: shifted.bar_z - shifted.bar_prev, bar_prev: 0, ..shifted }
    } else {
        shifted
    }
}

/// The state after a whole queue of events, applied in order.
pub open spec fn apply_events(s: ControlState, es: Seq<MeasureEvent>) -> ControlState
    decreases es.len(),
{
    if es.len() == 0 {
        s
    } else {
        apply_events(apply_event(s, es[0]), es.skip(1))
    }
}

/// A left event followed by a right event (or the other way round) returns
/// both the balance and the indicator orientation to their prior values.
pub proof fn lemma_opposite_events_restore(s: ControlState)
    ensures
        apply_event(apply_event(s, MeasureEvent::Left), MeasureEvent::Right).balance == s.balance,
        apply_event(apply_event(s, MeasureEvent::Left), MeasureEvent::Right).half_turns
            == s.half_turns,
        apply_event(apply_event(s, MeasureEvent::Right), MeasureEvent::Left).balance == s.balance,
        apply_event(apply_event(s, MeasureEvent::Right), MeasureEvent::Left).half_turns
            == s.half_turns,
{
}

/// Handles one controller measurement.
pub fn handle_measure_event(
    player: &mut Player,
    handlebar: &mut Handlebar,
    indicator: &mut Indicator,
    event: MeasureEvent,
)
    requires
        i64::MIN + MEASURE_STEP <= old(player).balance <= i64::MAX - MEASURE_STEP,
        i64::MIN + 1 <= old(indicator).half_turns <= i64::MAX - 1,
        i64::MIN <= old(handlebar).z_rotation - old(handlebar).prev_rotation <= i64::MAX,
    ensures
        control_view(*final(player), *final(handlebar), *final(indicator)) == apply_event(
            control_view(*old(player), *old(handlebar), *old(indicator)),
            event,
        ),
        final(player).speed == old(player).speed,
        final(player).path_index == old(player).path_index,
        final(player).disrupt_timer == old(player).disrupt_timer,
{
    match event {
        MeasureEvent::Left => {
            player.balance = player.balance + MEASURE_STEP;
            indicator.half_turns = indicator.half_turns + 1;
        },
        MeasureEvent::Right => {
            player.balance = player.balance - MEASURE_STEP;
            indicator.half_turns = indicator.half_turns - 1;
        },
    }
    if in_tolerance(player.balance) {
        handlebar.z_rotation = handlebar.z_rotation - handlebar.prev_rotation;
        handlebar.prev_rotation = 0;
    }
}

/// Appending one event to a queue is the same as handling the queue and then
/// the event.
pub proof fn lemma_apply_events_snoc(s: ControlState, es: Seq<MeasureEvent>, e: MeasureEvent)
    ensures
        apply_events(s, es.push(e)) == apply_event(apply_events(s, es), e),
    decreases es.len(),
{
    if es.len() == 0 {
        assert(es.push(e)[0] == e);
        assert(es.push(e).skip(1) =~= Seq::<MeasureEvent>::empty());
        assert(apply_events(s, es.push(e)) == apply_events(apply_event(s, e), es.push(e).skip(1)));
    } else {
        assert(es.push(e)[0] == es[0]);
        assert(es.push(e).skip(1) =~= es.skip(1).push(e));
        lemma_apply_events_snoc(apply_event(s, es[0]), es.skip(1), e);
    }
}

/// Drains a queue of controller measurements in emit order.
pub fn handle_measure_events(
    player: &mut Player,
    handlebar: &mut Handlebar,
    indicator: &mut Indicator,
    events: &Vec<MeasureEvent>,
)
    requires
        i64::MIN + MEASURE_STEP * events@.len() <= old(player).balance,
        old(player).balance <= i64::MAX - MEASURE_STEP * events@.len(),
        i64::MIN + events@.len() <= old(indicator).half_turns,
        old(indicator).half_turns <= i64::MAX - events@.len(),
        i64::MIN <= old(handlebar).z_rotation - old(handlebar).prev_rotation <= i64::MAX,
    ensures
        control_view(*final(player), *final(handlebar), *final(indicator)) == apply_events(
            control_view(*old(player), *old(handlebar), *old(indicator)),
            events@,
        ),
        final(player).speed == old(player).speed,
        final(player).path_index == old(player).path_index,
        final(player).disrupt_timer == old(player).disrupt_timer,
{
    let ghost v0 = control_view(*old(player), *old(handlebar), *old(indicator));
    let n = events.len();
    let mut i: usize = 0;
    while i < n
        invariant
            i <= n,
            n == events@.len(),
            control_view(*player, *handlebar, *indicator) == apply_events(v0, events@.take(i as int)),
            v0 == control_view(*old(player), *old(handlebar), *old(indicator)),
            v0.balance - MEASURE_STEP * (i as int) <= player.balance
                <= v0.balance + MEASURE_STEP * (i as int),
            i64::MIN + MEASURE_STEP * (n - i) <= v0.balance - MEASURE_STEP * (i as int),
            v0.balance + MEASURE_STEP * (i as int) <= i64::MAX - MEASURE_STEP * (n - i),
            v0.half_turns - i <= indicator.half_turns <= v0.half_turns + i,
            i64::MIN + (n - i) <= v0.half_turns - i,
            v0.half_turns + i <= i64::MAX - (n - i),
            (handlebar.z_rotation == v0.bar_z && handlebar.prev_rotation == v0.bar_prev)
                || (handlebar.z_rotation == v0.bar_z - v0.bar_prev
                    && handlebar.prev_rotation == 0),
            i64::MIN <= v0.bar_z - v0.bar_prev <= i64::MAX,
            player.speed == old(player).speed,
            player.path_index == old(player).path_index,
            player.disrupt_timer == old(player).disrupt_timer,
        decreases n - i,
    {
        let e = events[i];
        proof {
            lemma_apply_events_snoc(v0, events@.take(i as int), e);
            assert(events@.take(i as int).push(e) =~= events@.take(i as int + 1));
        }
        handle_measure_event(player, handlebar, indicator, e);
        i = i + 1;
    }
    proof {
        assert(events@.take(n as int) =~= events@);
    }
}

} // verus!

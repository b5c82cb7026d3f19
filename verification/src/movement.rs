//! The per-tick velocity update for the player body.
//!
//! Every simulation tick the movement controller reads the held keys and the
//! body's current velocity, resolves a horizontal axis (left and right cancel
//! exactly when held together) and a vertical flag (up only; down is ignored),
//! and computes the next velocity:
//!
//! * horizontally, the velocity is nudged by `axis * 150` milli-units/s per
//!   millisecond of tick delta, then clamped from above at 150 units/s. The
//!   clamp is one-sided by design: the velocity may grow arbitrarily negative.
//! * vertically, a held up key sets the velocity to exactly 50 units/s;
//!   otherwise the velocity decays by 100 milli-units/s per millisecond, a
//!   manual fall acceleration applied on top of whatever the engine's own
//!   gravity integration contributes.

use vstd::prelude::*;

use crate::input::InputSnapshot;

verus! {

/// Horizontal gain while a direction is held, in milli-units/s of velocity
/// per millisecond of tick delta (equal to 150 units/s per second).
pub const RUN_ACCEL_MILLI_PER_MS: i64 = 150;

/// Upper clamp on the horizontal velocity, in milli-units/s (150 units/s).
/// There is no matching lower clamp.
pub const SPEED_CAP_MILLI: i64 = 150_000;

/// Vertical velocity while up is held, in milli-units/s (50 units/s).
pub const JUMP_SPEED_MILLI: i64 = 50_000;

/// Manual fall decay while up is not held, in milli-units/s of velocity per
/// millisecond of tick delta (equal to 100 units/s per second).
pub const FALL_ACCEL_MILLI_PER_MS: i64 = 100;

/// Largest tick delta the controller accepts, in milliseconds. Far beyond
/// any real frame time; it only keeps the fixed-point arithmetic in `i64`.
pub const MAX_TICK_MS: u64 = 1_000_000_000;

/// Largest velocity magnitude the controller accepts, in milli-units/s.
/// Far beyond anything the update rules produce; it only keeps the
/// fixed-point arithmetic in `i64`.
pub const VEL_LIMIT_MILLI: i64 = 4_000_000_000_000_000;

/// A 2D linear velocity in milli-units per second.
#[derive(Clone, Copy, PartialEq, Eq, Structural, Debug)]
pub struct Velocity {
    pub x: i64,
    pub y: i64,
}

impl Velocity {
    /// The zero velocity.
    pub open spec fn spec_zero() -> Velocity {
        Velocity { x: 0, y: 0 }
    }

    /// Both components within `VEL_LIMIT_MILLI` in magnitude.
    pub open spec fn in_range(self) -> bool {
        &&& -VEL_LIMIT_MILLI <= self.x <= VEL_LIMIT_MILLI
        &&& -VEL_LIMIT_MILLI <= self.y <= VEL_LIMIT_MILLI
    }

    /// The zero velocity.
    pub fn zero() -> (v: Velocity)
        ensures
            v == Velocity::spec_zero(),
    {
        Velocity { x: 0, y: 0 }
    }
}

/// The horizontal axis resolved from the held directions: `+1` for right,
/// `-1` for left, and `0` when neither or both are held — opposite
/// directions cancel exactly.
pub open spec fn spec_horizontal_axis(left: bool, right: bool) -> int {
    (if right { 1int } else { 0int }) + (if left { -1int } else { 0int })
}

/// The next horizontal velocity: the current one nudged along the axis by
/// `RUN_ACCEL_MILLI_PER_MS` per millisecond, clamped from above at
/// `SPEED_CAP_MILLI` and from below not at all.
pub open spec fn spec_next_vx(vx: int, left: bool, right: bool, d_ms: int) -> int {
    let candidate = vx + spec_horizontal_axis(left, right) * RUN_ACCEL_MILLI_PER_MS * d_ms;
    if candidate > SPEED_CAP_MILLI {
        SPEED_CAP_MILLI as int
    } else {
        candidate
    }
}

/// The next vertical velocity: exactly `JUMP_SPEED_MILLI` while up is held,
/// otherwise the current one lowered by `FALL_ACCEL_MILLI_PER_MS` per
/// millisecond. Only the up direction enters; a held down key has no effect.
pub open spec fn spec_next_vy(vy: int, up: bool, d_ms: int) -> int {
    if up {
        JUMP_SPEED_MILLI as int
    } else {
        vy - FALL_ACCEL_MILLI_PER_MS * d_ms
    }
}

/// The next velocity of a player body, from the held keys and the tick delta.
pub open spec fn spec_tick_velocity(v: Velocity, input: InputSnapshot, d_ms: int) -> Velocity {
    Velocity {
        x: spec_next_vx(v.x as int, input.spec_left_held(), input.spec_right_held(), d_ms) as i64,
        y: spec_next_vy(v.y as int, input.spec_up_held(), d_ms) as i64,
    }
}

/// Resolves the horizontal axis from the held directions.
pub fn horizontal_axis(left: bool, right: bool) -> (axis: i64)
    ensures
        axis == spec_horizontal_axis(left, right),
        -1 <= axis <= 1,
{
    let positive: i64 = if right { 1 } else { 0 };
    let negative: i64 = if left { -1 } else { 0 };
    positive + negative
}

/// One movement-controller step on a single body's velocity.
///
/// Total over every key combination and every tick delta the fixed-point
/// range admits; the bounds below exist only so the `i64` arithmetic cannot
/// overflow.
pub fn tick_velocity(v: Velocity, input: &InputSnapshot, d_ms: u64) -> (next: Velocity)
    requires
        d_ms <= MAX_TICK_MS,
        v.in_range(),
    ensures
        next.x == spec_next_vx(v.x as int, input.spec_left_held(), input.spec_right_held(),
            d_ms as int),
        next.y == spec_next_vy(v.y as int, input.spec_up_held(), d_ms as int),
        next == spec_tick_velocity(v, *input, d_ms as int),
        next.x <= SPEED_CAP_MILLI,
{
    let up = input.up_held();
    let left = input.left_held();
    let right = input.right_held();

    let axis = horizontal_axis(left, right);
    let delta: i64 = d_ms as i64;

    let scaled: i64 = RUN_ACCEL_MILLI_PER_MS * delta;
    let nudge: i64 = if axis == 1 {
        scaled
    } else if axis == -1 {
        -scaled
    } else {
        0
    };
    proof {
        let a = spec_horizontal_axis(left, right);
        let k = RUN_ACCEL_MILLI_PER_MS as int;
        let d = d_ms as int;
        if a == 1 {
            assert(a * k * d == k * d) by (nonlinear_arith)
                requires
                    a == 1,
            ;
        } else if a == -1 {
            assert(a * k * d == -(k * d)) by (nonlinear_arith)
                requires
                    a == -1,
            ;
        } else {
            assert(a * k * d == 0) by (nonlinear_arith)
                requires
                    a == 0,
            ;
        }
        assert(nudge == a * k * d);
    }
    let candidate: i64 = v.x + nudge;
    let next_x: i64 = if candidate > SPEED_CAP_MILLI {
        SPEED_CAP_MILLI
    } else {
        candidate
    };

    let next_y: i64 = if up {
        JUMP_SPEED_MILLI
    } else {
        v.y - FALL_ACCEL_MILLI_PER_MS * delta
    };

    Velocity { x: next_x, y: next_y }
}

/// For every starting velocity, every held-key combination and every tick
/// delta, the resulting horizontal velocity never exceeds the cap.
pub proof fn lemma_horizontal_speed_cap(vx: int, left: bool, right: bool, d_ms: int)
    ensures
        spec_next_vx(vx, left, right, d_ms) <= SPEED_CAP_MILLI,
{
}

/// Left and right held together cancel exactly: the axis resolves to zero
/// and a tick behaves as if neither direction were held.
pub proof fn lemma_opposed_directions_cancel(vx: int, d_ms: int)
    ensures
        spec_horizontal_axis(true, true) == 0,
        spec_next_vx(vx, true, true, d_ms) == spec_next_vx(vx, false, false, d_ms),
{
}

/// A held up key sets the vertical velocity to exactly the jump speed,
/// whatever the previous vertical velocity and the tick delta.
pub proof fn lemma_up_sets_jump_speed(vy: int, d_ms: int)
    ensures
        spec_next_vy(vy, true, d_ms) == JUMP_SPEED_MILLI,
{
}

/// Without a held up key the vertical velocity loses exactly the fall decay,
/// so it strictly decreases on every tick with a positive delta — and keeps
/// decreasing across consecutive such ticks.
pub proof fn lemma_fall_strictly_decreases(vy: int, d1_ms: int, d2_ms: int)
    requires
        d1_ms > 0,
        d2_ms > 0,
    ensures
        spec_next_vy(vy, false, d1_ms) == vy - FALL_ACCEL_MILLI_PER_MS * d1_ms,
        spec_next_vy(vy, false, d1_ms) < vy,
        spec_next_vy(spec_next_vy(vy, false, d1_ms), false, d2_ms) < spec_next_vy(
            vy,
            false,
            d1_ms,
        ),
{
}

/// Once the horizontal velocity sits at the cap and right is still held, any
/// further tick leaves it exactly at the cap: the clamp is idempotent once
/// saturated, with or without a simultaneous left press.
pub proof fn lemma_cap_is_stable(left: bool, d_ms: int)
    requires
        d_ms >= 0,
    ensures
        spec_next_vx(SPEED_CAP_MILLI as int, left, true, d_ms) == SPEED_CAP_MILLI,
{
    let a = spec_horizontal_axis(left, true);
    let k = RUN_ACCEL_MILLI_PER_MS as int;
    if a == 1 {
        assert(a * k * d_ms == k * d_ms) by (nonlinear_arith)
            requires
                a == 1,
        ;
    } else {
        assert(a * k * d_ms == 0) by (nonlinear_arith)
            requires
                a == 0,
        ;
    }
}

/// The clamp only ever lowers a candidate that exceeds the cap: whenever the
/// nudged velocity stays at or below the cap — in particular however far
/// negative it goes — it passes through unchanged. There is no lower clamp.
pub proof fn lemma_no_lower_clamp(vx: int, left: bool, right: bool, d_ms: int)
    requires
        vx + spec_horizontal_axis(left, right) * RUN_ACCEL_MILLI_PER_MS * d_ms
            <= SPEED_CAP_MILLI,
    ensures
        spec_next_vx(vx, left, right, d_ms) == vx + spec_horizontal_axis(left, right)
            * RUN_ACCEL_MILLI_PER_MS * d_ms,
{
}

} // verus!

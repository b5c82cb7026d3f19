//! The physics-world model: global gravity plus the bodies the startup phase
//! creates — one static ground slab and one dynamic, player-tagged body.
//!
//! The engine outside this crate owns integration and collision; this model
//! carries exactly the values handed to it (body kind, collider, mass
//! override, gravity scale, velocity) and the one piece of per-tick logic the
//! crate owns: writing the next velocity into every player-tagged body.

use vstd::prelude::*;

use crate::input::InputSnapshot;
use crate::movement::MAX_TICK_MS;
use crate::movement::Velocity;
use crate::movement::spec_tick_velocity;
use crate::movement::tick_velocity;

verus! {

/// Gravity, horizontal component, in units/s².
pub const GRAVITY_X: i64 = 0;

/// Gravity, vertical component, in units/s² (downward).
pub const GRAVITY_Y: i64 = -10;

/// Ground collider half-extent along x, in units.
pub const GROUND_HALF_X: i64 = 500;

/// Ground collider half-extent along y, in units.
pub const GROUND_HALF_Y: i64 = 16;

/// Vertical position of the ground slab, in units (below the origin).
pub const GROUND_OFFSET_Y: i64 = -200;

/// Side of the player's square visual footprint, in units.
pub const PLAYER_SPRITE_SIZE: i64 = 100;

/// Half-side of the player's square collider, in units.
pub const PLAYER_COLLIDER_HALF: i64 = 50;

/// The player's gravity scale, in thousandths (full susceptibility).
pub const PLAYER_GRAVITY_SCALE_MILLI: i64 = 1000;

/// Nominal horizontal speed carried by the player tag, in units/s.
pub const PLAYER_NOMINAL_SPEED: i64 = 100;

/// Explicit mass override of the player body, in mass units; set directly
/// rather than derived from collider geometry.
pub const PLAYER_MASS: i64 = 10;

/// The process-wide gravity vector, in units/s².
#[derive(Clone, Copy, PartialEq, Eq, Structural, Debug)]
pub struct Gravity {
    pub x: i64,
    pub y: i64,
}

/// Marks the one player-controlled body; carries its nominal horizontal
/// speed in units/s. Immutable after spawn.
#[derive(Clone, Copy, PartialEq, Eq, Structural, Debug)]
pub struct PlayerTag {
    pub nominal_speed: i64,
}

/// How the engine integrates a body: a static body never moves, a dynamic
/// body is advanced from its velocity every tick.
#[derive(Clone, Copy, PartialEq, Eq, Structural, Debug)]
pub enum BodyKind {
    Static,
    Dynamic,
}

/// One physics body: its kind, placement, collider, the per-body values the
/// engine integrates with, and the optional player tag.
#[derive(Clone, Copy, Debug)]
pub struct Body {
    pub kind: BodyKind,
    /// Position, in units; mutated by the engine only, never by this crate.
    pub position_x: i64,
    pub position_y: i64,
    /// Collider half-extents, in units.
    pub collider_half_x: i64,
    pub collider_half_y: i64,
    /// Linear velocity, in milli-units/s; the movement controller's output.
    pub velocity: Velocity,
    /// Gravity scale in thousandths, for dynamic bodies.
    pub gravity_scale_milli: Option<i64>,
    /// Explicit mass override, in mass units, for dynamic bodies.
    pub mass_override: Option<i64>,
    /// Side of the square visual footprint, in units, where one is drawn.
    pub sprite_size: Option<i64>,
    pub tag: Option<PlayerTag>,
}

impl Body {
    /// Only dynamic bodies carry the player tag, and a static body never has
    /// a velocity.
    pub open spec fn wf(self) -> bool {
        &&& self.tag is Some ==> self.kind is Dynamic
        &&& self.kind is Static ==> self.velocity == Velocity::spec_zero()
    }

    /// Everything but the velocity agrees — what a movement step leaves alone.
    pub open spec fn same_except_velocity(self, other: Body) -> bool {
        &&& self.kind == other.kind
        &&& self.position_x == other.position_x
        &&& self.position_y == other.position_y
        &&& self.collider_half_x == other.collider_half_x
        &&& self.collider_half_y == other.collider_half_y
        &&& self.gravity_scale_milli == other.gravity_scale_milli
        &&& self.mass_override == other.mass_override
        &&& self.sprite_size == other.sprite_size
        &&& self.tag == other.tag
    }
}

/// The static ground slab: a wide, thin collider below the origin.
pub open spec fn spec_ground_body() -> Body {
    Body {
        kind: BodyKind::Static,
        position_x: 0,
        position_y: GROUND_OFFSET_Y,
        collider_half_x: GROUND_HALF_X,
        collider_half_y: GROUND_HALF_Y,
        velocity: Velocity::spec_zero(),
        gravity_scale_milli: None,
        mass_override: None,
        sprite_size: None,
        tag: None,
    }
}

/// The player body as spawned: dynamic, at the origin, at rest, with its
/// square collider and footprint, full gravity scale, explicit mass, and the
/// player tag.
pub open spec fn spec_player_body() -> Body {
    Body {
        kind: BodyKind::Dynamic,
        position_x: 0,
        position_y: 0,
        collider_half_x: PLAYER_COLLIDER_HALF,
        collider_half_y: PLAYER_COLLIDER_HALF,
        velocity: Velocity::spec_zero(),
        gravity_scale_milli: Some(PLAYER_GRAVITY_SCALE_MILLI),
        mass_override: Some(PLAYER_MASS),
        sprite_size: Some(PLAYER_SPRITE_SIZE),
        tag: Some(PlayerTag { nominal_speed: PLAYER_NOMINAL_SPEED }),
    }
}

/// The simulation state this crate reasons about: the gravity vector handed
/// to the engine once at startup, and every body spawned so far.
pub struct World {
    pub gravity: Gravity,
    pub bodies: Vec<Body>,
}

impl World {
    /// Every body is well-formed.
    pub open spec fn wf(self) -> bool {
        forall|i: int| 0 <= i < self.bodies@.len() ==> (#[trigger] self.bodies@[i]).wf()
    }

    /// Every body's velocity is within the fixed-point working range.
    pub open spec fn velocities_in_range(self) -> bool {
        forall|i: int|
            0 <= i < self.bodies@.len() ==> (#[trigger] self.bodies@[i]).velocity.in_range()
    }

    /// Startup, first half: fixes gravity to `(0, -10)` — the only place the
    /// vector is ever given a value — and spawns the static ground slab.
    pub fn bootstrap() -> (w: World)
        ensures
            w.gravity == (Gravity { x: GRAVITY_X, y: GRAVITY_Y }),
            w.bodies@.len() == 1,
            w.bodies@[0] == spec_ground_body(),
            w.wf(),
            w.velocities_in_range(),
    {
        let mut bodies: Vec<Body> = Vec::new();
        bodies.push(Body {
            kind: BodyKind::Static,
            position_x: 0,
            position_y: GROUND_OFFSET_Y,
            collider_half_x: GROUND_HALF_X,
            collider_half_y: GROUND_HALF_Y,
            velocity: Velocity::zero(),
            gravity_scale_milli: None,
            mass_override: None,
            sprite_size: None,
            tag: None,
        });
        World { gravity: Gravity { x: GRAVITY_X, y: GRAVITY_Y }, bodies }
    }

    /// Startup, second half: spawns the player body. Leaves gravity and every
    /// existing body untouched.
    pub fn spawn_player(&mut self)
        ensures
            final(self).gravity == old(self).gravity,
            final(self).bodies@ == old(self).bodies@.push(spec_player_body()),
            old(self).wf() ==> final(self).wf(),
            old(self).velocities_in_range() ==> final(self).velocities_in_range(),
    {
        self.bodies.push(Body {
            kind: BodyKind::Dynamic,
            position_x: 0,
            position_y: 0,
            collider_half_x: PLAYER_COLLIDER_HALF,
            collider_half_y: PLAYER_COLLIDER_HALF,
            velocity: Velocity::zero(),
            gravity_scale_milli: Some(PLAYER_GRAVITY_SCALE_MILLI),
            mass_override: Some(PLAYER_MASS),
            sprite_size: Some(PLAYER_SPRITE_SIZE),
            tag: Some(PlayerTag { nominal_speed: PLAYER_NOMINAL_SPEED }),
        });
    }

    /// One movement-controller pass: writes the next velocity into every
    /// player-tagged body and touches nothing else — not the gravity vector,
    /// not the untagged bodies, not any other field of the tagged ones.
    /// Correct for zero, one, or many tagged bodies.
    pub fn apply_movement(&mut self, input: &InputSnapshot, d_ms: u64)
        requires
            d_ms <= MAX_TICK_MS,
            old(self).velocities_in_range(),
        ensures
            final(self).gravity == old(self).gravity,
            final(self).bodies@.len() == old(self).bodies@.len(),
            forall|i: int|
                0 <= i < old(self).bodies@.len() && (#[trigger] old(self).bodies@[i]).tag
                    is Some ==> {
                    &&& final(self).bodies@[i].velocity == spec_tick_velocity(
                        old(self).bodies@[i].velocity,
                        *input,
                        d_ms as int,
                    )
                    &&& final(self).bodies@[i].same_except_velocity(old(self).bodies@[i])
                },
            forall|i: int|
                0 <= i < old(self).bodies@.len() && (#[trigger] old(self).bodies@[i]).tag
                    is None ==> final(self).bodies@[i] == old(self).bodies@[i],
            old(self).wf() ==> final(self).wf(),
    {
        let n = self.bodies.len();
        let mut i: usize = 0;
        while i < n
            invariant
                i <= n,
                n == self.bodies@.len(),
                n == old(self).bodies@.len(),
                self.gravity == old(self).gravity,
                d_ms <= MAX_TICK_MS,
                old(self).velocities_in_range(),
                forall|j: int| i <= j < n ==> self.bodies@[j] == old(self).bodies@[j],
                forall|j: int|
                    0 <= j < i && (#[trigger] old(self).bodies@[j]).tag is Some ==> {
                        &&& self.bodies@[j].velocity == spec_tick_velocity(
                            old(self).bodies@[j].velocity,
                            *input,
                            d_ms as int,
                        )
                        &&& self.bodies@[j].same_except_velocity(old(self).bodies@[j])
                    },
                forall|j: int|
                    0 <= j < i && (#[trigger] old(self).bodies@[j]).tag is None
                        ==> self.bodies@[j] == old(self).bodies@[j],
            decreases n - i,
        {
            let body = self.bodies[i];
            if body.tag.is_some() {
                let next = tick_velocity(body.velocity, input, d_ms);
                self.bodies[i] = Body { velocity: next, ..body };
            }
            i += 1;
        }
        proof {
            if old(self).wf() {
                assert forall|j: int|
                    0 <= j < self.bodies@.len() implies (#[trigger] self.bodies@[j]).wf() by {
                    assert(old(self).bodies@[j].wf());
                    if old(self).bodies@[j].tag is Some {
                        assert(self.bodies@[j].same_except_velocity(old(self).bodies@[j]));
                    } else {
                        assert(self.bodies@[j] == old(self).bodies@[j]);
                    }
                }
            }
        }
    }
}

} // verus!

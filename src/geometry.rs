//! Screen geometry, positions, velocities and clamped integration.
use vstd::prelude::*;

verus! {

/// Width of the playfield in pixels.
pub const SCREEN_WIDTH: i32 = 240;

/// Height of the playfield in pixels.
pub const SCREEN_HEIGHT: i32 = 160;

/// A screen-space pixel coordinate pair, origin at the top left.
#[derive(Clone, Copy, Debug, PartialEq, Eq, Structural)]
pub struct Position {
    pub x: i32,
    pub y: i32,
}

/// Pixels moved per frame along each axis.
#[derive(Clone, Copy, Debug, PartialEq, Eq, Structural)]
pub struct Velocity {
    pub vx: i32,
    pub vy: i32,
}

/// The closed rectangle that an entity's position is kept inside.
#[derive(Clone, Copy, Debug, PartialEq, Eq, Structural)]
pub struct Bounds {
    pub min_x: i32,
    pub max_x: i32,
    pub min_y: i32,
    pub max_y: i32,
}

/// `v` moved into the closed interval `[lo, hi]`.
pub open spec fn clamp_int(v: int, lo: int, hi: int) -> int {
    if v < lo {
        lo
    } else if v > hi {
        hi
    } else {
        v
    }
}

impl Bounds {
    /// Both intervals are non-empty.
    pub open spec fn wf(self) -> bool {
        self.min_x <= self.max_x && self.min_y <= self.max_y
    }

    pub open spec fn contains(self, p: Position) -> bool {
        self.min_x <= p.x <= self.max_x && self.min_y <= p.y <= self.max_y
    }

    /// Bounds that keep a `width` by `height` sprite on screen horizontally, and
    /// vertically between `min_y` and the bottom edge.
    pub fn for_sprite(width: i32, height: i32, min_y: i32) -> (r: Bounds)
        requires
            0 <= width <= SCREEN_WIDTH,
            0 <= height <= SCREEN_HEIGHT,
            min_y <= SCREEN_HEIGHT - height,
        ensures
            r.wf(),
            r.min_x == 0,
            r.max_x == SCREEN_WIDTH - width,
            r.min_y == min_y,
            r.max_y == SCREEN_HEIGHT - height,
    {
        Bounds { min_x: 0, max_x: SCREEN_WIDTH - width, min_y, max_y: SCREEN_HEIGHT - height }
    }
}

/// Moves `v` by `d` and clamps the sum into `[lo, hi]`.
pub fn clamp_axis(v: i32, d: i32, lo: i32, hi: i32) -> (r: i32)
    requires
        lo <= hi,
    ensures
        r == clamp_int(v + d, lo as int, hi as int),
{
    let s: i64 = v as i64 + d as i64;
    if s < lo as i64 {
        lo
    } else if s > hi as i64 {
        hi
    } else {
        s as i32
    }
}

/// One integration step: each axis moved by the velocity and clamped.
pub open spec fn integrate_spec(p: Position, v: Velocity, b: Bounds) -> Position {
    Position {
        x: clamp_int(p.x + v.vx, b.min_x as int, b.max_x as int) as i32,
        y: clamp_int(p.y + v.vy, b.min_y as int, b.max_y as int) as i32,
    }
}

/// Moves `p` by `v`, each axis clamped into `b` independently.
pub fn integrate(p: Position, v: Velocity, b: Bounds) -> (r: Position)
    requires
        b.wf(),
    ensures
        r == integrate_spec(p, v, b),
        b.contains(r),
{
    Position {
        x: clamp_axis(p.x, v.vx, b.min_x, b.max_x),
        y: clamp_axis(p.y, v.vy, b.min_y, b.max_y),
    }
}

} // verus!

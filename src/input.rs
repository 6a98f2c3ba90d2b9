//! A frame's view of the controls and the velocity derived from it.
use vstd::prelude::*;
use crate::geometry::Velocity;

verus! {

/// A directional reading along one axis: negative, none, or positive.
#[derive(Clone, Copy, Debug, PartialEq, Eq, Structural)]
pub enum Tri {
    Negative,
    Zero,
    Positive,
}

impl Tri {
    pub open spec fn spec_value(self) -> int {
        match self {
            Tri::Negative => -1,
            Tri::Zero => 0,
            Tri::Positive => 1,
        }
    }

    /// The reading as -1, 0 or 1.
    pub fn value(self) -> (r: i32)
        ensures
            r == self.spec_value(),
    {
        match self {
            Tri::Negative => -1,
            Tri::Zero => 0,
            Tri::Positive => 1,
        }
    }
}

/// The state of the controls for one frame; it changes only when the input
/// source is advanced.
#[derive(Clone, Copy, Debug, PartialEq, Eq, Structural)]
pub struct InputSnapshot {
    pub x_axis: Tri,
    pub y_axis: Tri,
    /// Whether the button that doubles the speed is held.
    pub fast_held: bool,
}

/// The speed factor of a snapshot: 2 while the fast button is held, else 1.
pub open spec fn speed_factor(fast_held: bool) -> int {
    if fast_held {
        2
    } else {
        1
    }
}

/// The velocity that a snapshot asks for.
pub open spec fn velocity_of(s: InputSnapshot) -> Velocity {
    Velocity {
        vx: (s.x_axis.spec_value() * speed_factor(s.fast_held)) as i32,
        vy: (s.y_axis.spec_value() * speed_factor(s.fast_held)) as i32,
    }
}

/// Each velocity component lies in `[-2, 2]`.
pub open spec fn velocity_in_range(v: Velocity) -> bool {
    -2 <= v.vx <= 2 && -2 <= v.vy <= 2
}

/// Derives this frame's velocity: each axis reading, doubled while the fast
/// button is held.
pub fn derive_velocity(s: InputSnapshot) -> (r: Velocity)
    ensures
        r == velocity_of(s),
        r.vx == s.x_axis.spec_value() * speed_factor(s.fast_held),
        r.vy == s.y_axis.spec_value() * speed_factor(s.fast_held),
        velocity_in_range(r),
{
    let mut vx = s.x_axis.value();
    let mut vy = s.y_axis.value();
    if s.fast_held {
        vx = vx * 2;
        vy = vy * 2;
    }
    Velocity { vx, vy }
}

/// Holding the fast button doubles both components of the derived velocity,
/// and the doubled components never leave `[-2, 2]`.
pub proof fn fast_button_doubles(x_axis: Tri, y_axis: Tri)
    ensures
        velocity_of(InputSnapshot { x_axis, y_axis, fast_held: true }).vx
            == 2 * velocity_of(InputSnapshot { x_axis, y_axis, fast_held: false }).vx,
        velocity_of(InputSnapshot { x_axis, y_axis, fast_held: true }).vy
            == 2 * velocity_of(InputSnapshot { x_axis, y_axis, fast_held: false }).vy,
        velocity_in_range(velocity_of(InputSnapshot { x_axis, y_axis, fast_held: true })),
{
}

} // verus!

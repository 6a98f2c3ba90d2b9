//! Position and velocity of one entity, advanced once per frame with a frame of
//! input lag.
use vstd::prelude::*;
use crate::geometry::{integrate, integrate_spec, Bounds, Position, Velocity};
use crate::input::{derive_velocity, velocity_in_range, velocity_of, InputSnapshot};

verus! {

/// The moving state of an entity and the rectangle it is kept inside.
#[derive(Clone, Copy, Debug, PartialEq, Eq, Structural)]
pub struct Mover {
    pub position: Position,
    /// The velocity derived during the previous frame; it moves the entity at
    /// the start of the next one.
    pub velocity: Velocity,
    pub bounds: Bounds,
}

impl Mover {
    pub open spec fn wf(self) -> bool {
        &&& self.bounds.wf()
        &&& self.bounds.contains(self.position)
        &&& velocity_in_range(self.velocity)
    }

    /// The state after one frame with input `s`: the position is integrated with
    /// the velocity held from before, then the velocity is derived afresh from `s`.
    pub open spec fn step_spec(self, s: InputSnapshot) -> Mover {
        Mover {
            position: integrate_spec(self.position, self.velocity, self.bounds),
            velocity: velocity_of(s),
            bounds: self.bounds,
        }
    }

    /// An entity at rest at `position`.
    pub fn new(position: Position, bounds: Bounds) -> (r: Mover)
        requires
            bounds.wf(),
            bounds.contains(position),
        ensures
            r.wf(),
            r == (Mover { position, velocity: Velocity { vx: 0, vy: 0 }, bounds }),
    {
        Mover { position, velocity: Velocity { vx: 0, vy: 0 }, bounds }
    }

    /// Runs one frame: integrate with the held velocity, then derive the
    /// velocity for the next frame from `s`.
    pub fn step(&mut self, s: InputSnapshot)
        requires
            old(self).bounds.wf(),
        ensures
            *final(self) == old(self).step_spec(s),
            final(self).wf(),
    {
        self.position = integrate(self.position, self.velocity, self.bounds);
        self.velocity = derive_velocity(s);
    }
}

/// The position reached from `p` by integrating each velocity of `vs` in turn.
pub open spec fn run(p: Position, vs: Seq<Velocity>, b: Bounds) -> Position
    decreases vs.len(),
{
    if vs.len() == 0 {
        p
    } else {
        integrate_spec(run(p, vs.drop_last(), b), vs.last(), b)
    }
}

/// Whatever the velocities, the position lies inside the bounds after every
/// integration step.
pub proof fn clamping_invariant(p: Position, vs: Seq<Velocity>, b: Bounds)
    requires
        b.wf(),
    ensures
        forall|k: int| 1 <= k <= vs.len() ==> b.contains(#[trigger] run(p, vs.take(k), b)),
{
    assert forall|k: int| 1 <= k <= vs.len() implies b.contains(#[trigger] run(p, vs.take(k), b)) by {
        assert(vs.take(k).len() == k);
    }
}

/// The input of a frame does not move the entity in that frame; the velocity it
/// asks for moves the entity at the start of the next frame.
pub proof fn one_frame_lag(m: Mover, s: InputSnapshot, t: InputSnapshot, next: InputSnapshot)
    ensures
        m.step_spec(s).position == m.step_spec(t).position,
        m.step_spec(s).position == integrate_spec(m.position, m.velocity, m.bounds),
        m.step_spec(s).step_spec(next).position == integrate_spec(
            m.step_spec(s).position,
            velocity_of(s),
            m.bounds,
        ),
{
}

} // verus!

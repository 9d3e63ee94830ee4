//! The one behaviour of the demo: resetting the parent cube.
//!
//! Each frame the embedding binary polls the keyboard and gathers the state
//! of every body tagged as a parent cube.  The functions here decide what
//! that state becomes: when the reset key was just pressed, the body goes
//! back to its spawn pose and all its motion stops; otherwise nothing
//! changes.  The physics plugin owns the values in between frames, so the
//! rule is stated, and proved, for arbitrary incoming state.

use vstd::prelude::*;

use crate::geom::Coord3;
use crate::geom::Transform3;
use crate::geom::zero3;
use crate::scene::SPAWN_HEIGHT;
use crate::scene::spawn_pose;

verus! {

/// What the embedding binary reads off one tagged body before a frame's
/// decision, and writes back after it.  The velocity components are optional
/// because an entity need not carry them; a body without one keeps none.
#[derive(Clone, Copy, Debug, PartialEq, Eq)]
pub struct BodyState {
    /// The body's pose, owned by the physics plugin between frames.
    pub transform: Transform3,
    /// Linear velocity in milli-units per second, if the body carries one.
    pub linear_velocity: Option<Coord3>,
    /// Angular velocity in milli-radians per second, if the body carries one.
    pub angular_velocity: Option<Coord3>,
}

/// A velocity with its motion stopped: zero if present, still absent if
/// absent.
pub open spec fn stopped(v: Option<Coord3>) -> Option<Coord3> {
    match v {
        Some(_) => Some(zero3()),
        None => None,
    }
}

/// The state a reset leaves behind: the spawn pose, and no motion.
pub open spec fn reset_state(s: BodyState) -> BodyState {
    BodyState {
        transform: spawn_pose(),
        linear_velocity: stopped(s.linear_velocity),
        angular_velocity: stopped(s.angular_velocity),
    }
}

/// Applies one frame's decision to one tagged body.  On the reset key the
/// body returns to the spawn pose and both velocities, where present, become
/// zero; without the key press the state is left exactly as it was.  Either
/// way a velocity component is neither added nor removed.
pub fn reset_body(reset_pressed: bool, body: &mut BodyState)
    ensures
        reset_pressed ==> *final(body) == reset_state(*old(body)),
        !reset_pressed ==> *final(body) == *old(body),
{
    if reset_pressed {
        body.transform = Transform3::from_translation(Coord3 { x: 0, y: SPAWN_HEIGHT, z: 0 });
        if body.linear_velocity.is_some() {
            body.linear_velocity = Some(Coord3::zero());
        }
        if body.angular_velocity.is_some() {
            body.angular_velocity = Some(Coord3::zero());
        }
    }
}

/// Applies one frame's decision to every tagged body, in place, in order.
/// This is the whole per-frame rule: the embedding binary calls it with the
/// key state and the bodies the tag query matched (normally one).
pub fn reset_parent_cubes(reset_pressed: bool, bodies: &mut Vec<BodyState>)
    ensures
        final(bodies)@.len() == old(bodies)@.len(),
        reset_pressed ==> forall|i: int|
            0 <= i < old(bodies)@.len() ==> final(bodies)@[i] == reset_state(old(bodies)@[i]),
        !reset_pressed ==> final(bodies)@ == old(bodies)@,
{
    let n: usize = bodies.len();
    let mut i: usize = 0;
    while i < n
        invariant
            n == old(bodies)@.len(),
            bodies@.len() == n,
            i <= n,
            reset_pressed ==> forall|j: int|
                0 <= j < i ==> bodies@[j] == reset_state(old(bodies)@[j]),
            !reset_pressed ==> forall|j: int| 0 <= j < i ==> bodies@[j] == old(bodies)@[j],
            forall|j: int| i <= j < n ==> bodies@[j] == old(bodies)@[j],
        decreases n - i,
    {
        reset_body(reset_pressed, &mut bodies[i]);
        i = i + 1;
    }
    if !reset_pressed {
        assert(bodies@ =~= old(bodies)@);
    }
}

} // verus!

//! Which nodes the controller acts on.

use vstd::prelude::*;

verus! {

/// How the controlled actor is built.
#[derive(Clone, Copy, Debug, PartialEq, Eq, Structural)]
pub enum Variant {
    /// A simulated body carries position and yaw; a camera that hangs on it
    /// carries the pitch. The body stays on the ground.
    Embodied,
    /// One node carries position, yaw and pitch, and may fly.
    FreeCamera,
}

impl Variant {
    /// Whether the vertical keys move the actor.
    pub open spec fn spec_flies(self) -> bool {
        self == Variant::FreeCamera
    }

    /// Whether the vertical keys move the actor.
    #[verifier::when_used_as_spec(spec_flies)]
    pub fn flies(self) -> (r: bool)
        ensures
            r == self.spec_flies(),
    {
        match self {
            Variant::Embodied => false,
            Variant::FreeCamera => true,
        }
    }
}

/// A role that exactly one node plays.
#[derive(Clone, Copy, Debug, PartialEq, Eq, Structural)]
pub enum Role {
    /// The node that is moved and that takes the yaw.
    Body,
    /// The node that takes the pitch.
    Camera,
}

/// Why a role has no target.
#[derive(Clone, Copy, Debug, PartialEq, Eq, Structural)]
pub enum BindingError {
    /// No node plays the role.
    Missing(Role),
    /// More than one node plays the role.
    Ambiguous(Role),
}

/// Whether a role has its target: exactly one node plays it.
pub open spec fn target_outcome(role: Role, candidates: int) -> Result<(), BindingError> {
    if candidates == 1 {
        Ok(())
    } else if candidates <= 0 {
        Err(BindingError::Missing(role))
    } else {
        Err(BindingError::Ambiguous(role))
    }
}

/// Whether both roles have their targets: the body is looked at first.
pub open spec fn binding_outcome(bodies: int, cameras: int) -> Result<(), BindingError> {
    if target_outcome(Role::Body, bodies) is Err {
        target_outcome(Role::Body, bodies)
    } else {
        target_outcome(Role::Camera, cameras)
    }
}

/// Accepts a role that exactly one node plays. With several candidates
/// none is picked: the caller is told, and is expected to stop.
pub fn single_target(role: Role, candidates: usize) -> (r: Result<(), BindingError>)
    ensures
        r == target_outcome(role, candidates as int),
        candidates == 1 <==> r is Ok,
{
    if candidates == 1 {
        Ok(())
    } else if candidates == 0 {
        Err(BindingError::Missing(role))
    } else {
        Err(BindingError::Ambiguous(role))
    }
}

/// Accepts an actor whose body is one node and whose camera is one node.
pub fn bind_targets(bodies: usize, cameras: usize) -> (r: Result<(), BindingError>)
    ensures
        r == binding_outcome(bodies as int, cameras as int),
        bodies == 1 && cameras == 1 <==> r is Ok,
{
    match single_target(Role::Body, bodies) {
        Ok(()) => single_target(Role::Camera, cameras),
        Err(e) => Err(e),
    }
}

} // verus!

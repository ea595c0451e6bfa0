//! Collider shapes and what combat reads from them.

use vstd::prelude::*;

verus! {

/// The shape by which a body collides, lengths in thousandths of a unit.
#[derive(Clone, Copy, Debug, PartialEq, Eq, Structural)]
pub enum Collider {
    /// An upright capsule: a cylinder of the given height capped by two half spheres.
    Capsule { radius: u32, height: u32 },
    Sphere { radius: u32 },
    Cuboid { x_length: u32, y_length: u32, z_length: u32 },
    Cylinder { radius: u32, height: u32 },
}

impl Collider {
    /// An upright capsule.
    pub fn capsule(radius: u32, height: u32) -> (r: Self)
        ensures
            r == (Collider::Capsule { radius, height }),
    {
        Collider::Capsule { radius, height }
    }
}

/// The radius of a capsule, and nothing for any other shape.
pub open spec fn capsule_radius(collider: Collider) -> Option<u32> {
    match collider {
        Collider::Capsule { radius, .. } => Some(radius),
        _ => None,
    }
}

/// The radius that range checks use. Only a capsule has one: for every other
/// shape the answer is `None`, and the caller leaves the pair alone.
pub fn get_capsule_radius(collider: &Collider) -> (r: Option<u32>)
    ensures
        r == capsule_radius(*collider),
{
    match collider {
        Collider::Capsule { radius, .. } => Some(*radius),
        _ => None,
    }
}

} // verus!

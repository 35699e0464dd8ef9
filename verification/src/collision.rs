//! Collision groups of physics shapes.

use vstd::prelude::*;

verus! {

/// The groups a physics shape can collide in.
pub enum CollisionGroups {
    Generic,
    Projectile,
    Actor,
    All,
}

impl CollisionGroups {
    /// The bit mask of a group: one bit per group, and every bit for `All`.
    pub fn bits(&self) -> (b: isize)
        ensures
            b == match self {
                CollisionGroups::Generic => 1int,
                CollisionGroups::Projectile => 2int,
                CollisionGroups::Actor => 4int,
                CollisionGroups::All => isize::MAX as int,
            },
    {
        match self {
            CollisionGroups::Generic => 1,
            CollisionGroups::Projectile => 2,
            CollisionGroups::Actor => 4,
            CollisionGroups::All => isize::MAX,
        }
    }
}

} // verus!

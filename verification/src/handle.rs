//! Handles by which the engine's object pools name actors and weapons.
//!
//! A handle is an index into a pool together with the generation of the
//! slot it was issued for; the handle with index and generation zero
//! names nothing.

use vstd::prelude::*;

verus! {

/// A handle of an actor in the level's actor pool.
#[derive(Clone, Copy, PartialEq, Eq, Structural, Hash, Debug)]
pub struct ActorHandle {
    pub index: u32,
    pub generation: u32,
}

/// A handle of a weapon in the level's weapon pool.
#[derive(Clone, Copy, PartialEq, Eq, Structural, Hash, Debug)]
pub struct WeaponHandle {
    pub index: u32,
    pub generation: u32,
}

/// A handle of a node of the scene graph, such as an actor's rigid body.
#[derive(Clone, Copy, PartialEq, Eq, Structural, Hash, Debug)]
pub struct NodeHandle {
    pub index: u32,
    pub generation: u32,
}

impl ActorHandle {
    /// The handle that names no actor.
    pub fn none() -> (h: Self)
        ensures
            h.index == 0 && h.generation == 0,
    {
        ActorHandle { index: 0, generation: 0 }
    }

    pub open spec fn spec_is_none(self) -> bool {
        self.index == 0 && self.generation == 0
    }

    /// Whether the handle names no actor.
    pub fn is_none(&self) -> (b: bool)
        ensures
            b == self.spec_is_none(),
    {
        self.index == 0 && self.generation == 0
    }

    /// Whether the handle names an actor.
    pub fn is_some(&self) -> (b: bool)
        ensures
            b == !self.spec_is_none(),
    {
        !self.is_none()
    }
}

impl WeaponHandle {
    /// The handle that names no weapon.
    pub fn none() -> (h: Self)
        ensures
            h.index == 0 && h.generation == 0,
    {
        WeaponHandle { index: 0, generation: 0 }
    }

    pub open spec fn spec_is_none(self) -> bool {
        self.index == 0 && self.generation == 0
    }

    /// Whether the handle names no weapon.
    pub fn is_none(&self) -> (b: bool)
        ensures
            b == self.spec_is_none(),
    {
        self.index == 0 && self.generation == 0
    }

    /// Whether the handle names a weapon.
    pub fn is_some(&self) -> (b: bool)
        ensures
            b == !self.spec_is_none(),
    {
        !self.is_none()
    }
}

} // verus!

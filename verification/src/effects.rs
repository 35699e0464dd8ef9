//! Kinds of visual effects.

use vstd::prelude::*;

verus! {

/// The kinds of particle effects the level can create.
#[derive(Clone, Copy, PartialEq, Eq, Structural, Hash, Debug)]
pub enum EffectKind {
    BulletImpact,
    ItemAppear,
    Smoke,
    Steam,
}

} // verus!

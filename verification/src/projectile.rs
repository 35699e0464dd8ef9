//! Kinds of projectiles.

use vstd::prelude::*;
use crate::handle::{ActorHandle, NodeHandle};
use crate::text::{signed_decimal, unknown_id_message};

verus! {

/// The kinds of projectiles that weapons fire.
#[derive(Clone, Copy, PartialEq, Eq, Structural, Hash, Debug)]
pub enum ProjectileKind {
    Plasma,
    Bullet,
    Rocket,
}

impl ProjectileKind {
    /// The id under which a kind is saved.
    pub open spec fn spec_id(self) -> int {
        match self {
            ProjectileKind::Plasma => 0,
            ProjectileKind::Bullet => 1,
            ProjectileKind::Rocket => 2,
        }
    }

    /// The kind saved under `id`; an id that names no kind is refused with a message.
    pub fn new(id: u32) -> (r: Result<Self, String>)
        ensures
            r is Ok <==> id < 3,
            r matches Ok(k) ==> k.spec_id() == id,
            r matches Err(e) ==> e@ == "Invalid projectile kind id "@ + signed_decimal(id as int),
    {
        match id {
            0 => Ok(ProjectileKind::Plasma),
            1 => Ok(ProjectileKind::Bullet),
            2 => Ok(ProjectileKind::Rocket),
            _ => Err(unknown_id_message("Invalid projectile kind id ", id as i64)),
        }
    }

    /// The id under which this kind is saved.
    pub fn id(self) -> (i: u32)
        ensures
            i == self.spec_id(),
    {
        match self {
            ProjectileKind::Plasma => 0,
            ProjectileKind::Bullet => 1,
            ProjectileKind::Rocket => 2,
        }
    }
}

/// Ids name kinds one to one: every kind has an id in `0..3`, and no two
/// kinds share one. So a kind written by its id is read back as itself.
pub proof fn projectile_kind_ids_are_unique(a: ProjectileKind, b: ProjectileKind)
    ensures
        0 <= a.spec_id() < 3,
        a.spec_id() == b.spec_id() ==> a == b,
{
}

/// How a kind of projectile moves and sounds on impact.
#[derive(Clone, Copy, PartialEq, Eq, Debug)]
pub struct ProjectileDefinition {
    /// The projectile is moved by the game, not by physics; it may still
    /// have a rigid body to detect collisions.
    pub is_kinematic: bool,
    pub impact_sound: &'static str,
}

/// The definition of each kind of projectile.
pub open spec fn spec_projectile_definition(kind: ProjectileKind) -> ProjectileDefinition {
    match kind {
        ProjectileKind::Plasma => ProjectileDefinition {
            is_kinematic: true,
            impact_sound: "data/sounds/bullet_impact_concrete.ogg",
        },
        ProjectileKind::Bullet => ProjectileDefinition {
            is_kinematic: true,
            impact_sound: "data/sounds/bullet_impact_concrete.ogg",
        },
        ProjectileKind::Rocket => ProjectileDefinition {
            is_kinematic: true,
            impact_sound: "data/sounds/explosion.ogg",
        },
    }
}

/// The definition of a kind of projectile.
pub fn get_definition(kind: ProjectileKind) -> (d: ProjectileDefinition)
    ensures
        d == spec_projectile_definition(kind),
{
    match kind {
        ProjectileKind::Plasma => ProjectileDefinition {
            is_kinematic: true,
            impact_sound: "data/sounds/bullet_impact_concrete.ogg",
        },
        ProjectileKind::Bullet => ProjectileDefinition {
            is_kinematic: true,
            impact_sound: "data/sounds/bullet_impact_concrete.ogg",
        },
        ProjectileKind::Rocket => ProjectileDefinition {
            is_kinematic: true,
            impact_sound: "data/sounds/explosion.ogg",
        },
    }
}

/// Something the segment a projectile travelled on this frame passed
/// through: the rigid body a collider belongs to, and whether the collider
/// is the level's static geometry.
#[derive(Clone, Copy, PartialEq, Eq, Structural, Debug)]
pub struct RayHit {
    pub body: NodeHandle,
    pub is_level_geometry: bool,
}

/// An actor of the level and its rigid body.
#[derive(Clone, Copy, PartialEq, Eq, Structural, Debug)]
pub struct ActorBody {
    pub actor: ActorHandle,
    pub body: NodeHandle,
}

/// Where a projectile stops on this frame.
#[derive(Clone, Copy, PartialEq, Eq, Structural, Debug)]
pub enum ProjectileHit {
    /// It flies on.
    Miss,
    /// It hits the level at hit number `hit`.
    Geometry { hit: usize },
    /// It hits `actor`, shot by `who`, at hit number `hit`.
    Actor { hit: usize, actor: ActorHandle, who: ActorHandle },
}

/// `k` is the first actor, in the order of `actors`, whose body is `body`
/// and who is not the shooter.
pub open spec fn is_first_struck(actors: Seq<ActorBody>, body: NodeHandle, shooter: ActorHandle, k: int) -> bool {
    &&& 0 <= k < actors.len()
    &&& actors[k].body == body
    &&& actors[k].actor != shooter
    &&& forall|j: int| 0 <= j < k ==> !(actors[j].body == body && actors[j].actor != shooter)
}

/// Some actor other than the shooter has the body `body`.
pub open spec fn strikes_someone(actors: Seq<ActorBody>, body: NodeHandle, shooter: ActorHandle) -> bool {
    exists|k: int| 0 <= k < actors.len() && actors[k].body == body && actors[k].actor != shooter
}

/// A hit stops the projectile: it is the level itself, or the body of an
/// actor other than the shooter. A projectile whose weapon is gone (no
/// known shooter) passes through actors.
pub open spec fn stops(h: RayHit, actors: Seq<ActorBody>, shooter: Option<ActorHandle>) -> bool {
    h.is_level_geometry || match shooter {
        Some(s) => strikes_someone(actors, h.body, s),
        None => false,
    }
}

/// `result` is where a projectile stops given the hits along its path,
/// nearest first: at the first hit that stops it, on the level or on the
/// first actor hit there other than the shooter; nowhere if none does.
pub open spec fn is_first_hit(
    hits: Seq<RayHit>,
    actors: Seq<ActorBody>,
    shooter: Option<ActorHandle>,
    result: ProjectileHit,
) -> bool {
    match result {
        ProjectileHit::Miss => forall|i: int| 0 <= i < hits.len() ==> !stops(#[trigger] hits[i], actors, shooter),
        ProjectileHit::Geometry { hit } => {
            &&& hit < hits.len()
            &&& hits[hit as int].is_level_geometry
            &&& forall|i: int| 0 <= i < hit ==> !stops(#[trigger] hits[i], actors, shooter)
        },
        ProjectileHit::Actor { hit, actor, who } => {
            &&& hit < hits.len()
            &&& !hits[hit as int].is_level_geometry
            &&& shooter == Some(who)
            &&& exists|k: int| is_first_struck(actors, hits[hit as int].body, who, k) && actors[k].actor == actor
            &&& forall|i: int| 0 <= i < hit ==> !stops(#[trigger] hits[i], actors, shooter)
        },
    }
}

/// The first actor other than `shooter` whose body is `body`, by position in `actors`.
fn struck_actor(actors: &[ActorBody], body: NodeHandle, shooter: ActorHandle) -> (r: Option<usize>)
    ensures
        match r {
            Some(k) => is_first_struck(actors@, body, shooter, k as int),
            None => !strikes_someone(actors@, body, shooter),
        },
{
    let n = actors.len();
    let mut k: usize = 0;
    while k < n
        invariant
            n == actors@.len(),
            k <= n,
            forall|j: int| 0 <= j < k ==> !(actors@[j].body == body && actors@[j].actor != shooter),
        decreases n - k,
    {
        if actors[k].body == body && actors[k].actor != shooter {
            return Some(k);
        }
        k = k + 1;
    }
    None
}

/// Where a projectile stops, given the hits along the segment it travelled
/// this frame (nearest first), the level's actors and the actor holding
/// the weapon that fired it (`None` once that weapon is gone).
pub fn first_hit(hits: &[RayHit], actors: &[ActorBody], shooter: Option<ActorHandle>) -> (r: ProjectileHit)
    ensures
        is_first_hit(hits@, actors@, shooter, r),
{
    let n = hits.len();
    let mut i: usize = 0;
    while i < n
        invariant
            n == hits@.len(),
            i <= n,
            forall|j: int| 0 <= j < i ==> !stops(#[trigger] hits@[j], actors@, shooter),
        decreases n - i,
    {
        let hit = hits[i];
        if hit.is_level_geometry {
            return ProjectileHit::Geometry { hit: i };
        }
        match shooter {
            Some(who) => match struck_actor(actors, hit.body, who) {
                Some(k) => {
                    let actor = actors[k].actor;
                    assert(is_first_struck(actors@, hits@[i as int].body, who, k as int)
                        && actors@[k as int].actor == actor);
                    let r = ProjectileHit::Actor { hit: i, actor, who };
                    assert(is_first_hit(hits@, actors@, shooter, r));
                    return r;
                },
                None => {},
            },
            None => {},
        }
        assert(!stops(hits@[i as int], actors@, shooter));
        i = i + 1;
    }
    ProjectileHit::Miss
}

/// A projectile stops at one place only: the result of the hit search is
/// determined by the hits, the actors and the shooter.
pub proof fn first_hit_is_unique(
    hits: Seq<RayHit>,
    actors: Seq<ActorBody>,
    shooter: Option<ActorHandle>,
    a: ProjectileHit,
    b: ProjectileHit,
)
    requires
        is_first_hit(hits, actors, shooter, a),
        is_first_hit(hits, actors, shooter, b),
    ensures
        a == b,
{
    match (a, b) {
        (ProjectileHit::Miss, ProjectileHit::Miss) => {},
        (ProjectileHit::Miss, ProjectileHit::Geometry { hit }) => {
            assert(stops(hits[hit as int], actors, shooter));
        },
        (ProjectileHit::Miss, ProjectileHit::Actor { hit, actor, who }) => {
            let k = choose|k: int| is_first_struck(actors, hits[hit as int].body, who, k) && actors[k].actor == actor;
            assert(stops(hits[hit as int], actors, shooter));
        },
        (ProjectileHit::Geometry { hit }, ProjectileHit::Miss) => {
            assert(stops(hits[hit as int], actors, shooter));
        },
        (ProjectileHit::Actor { hit, actor, who }, ProjectileHit::Miss) => {
            let k = choose|k: int| is_first_struck(actors, hits[hit as int].body, who, k) && actors[k].actor == actor;
            assert(stops(hits[hit as int], actors, shooter));
        },
        (ProjectileHit::Geometry { hit: h1 }, ProjectileHit::Geometry { hit: h2 }) => {
            if h1 < h2 {
                assert(stops(hits[h1 as int], actors, shooter));
            } else if h2 < h1 {
                assert(stops(hits[h2 as int], actors, shooter));
            }
        },
        (ProjectileHit::Geometry { hit: h1 }, ProjectileHit::Actor { hit: h2, actor, who }) => {
            let k = choose|k: int| is_first_struck(actors, hits[h2 as int].body, who, k) && actors[k].actor == actor;
            assert(stops(hits[h1 as int], actors, shooter));
            assert(stops(hits[h2 as int], actors, shooter));
        },
        (ProjectileHit::Actor { hit: h1, actor, who }, ProjectileHit::Geometry { hit: h2 }) => {
            let k = choose|k: int| is_first_struck(actors, hits[h1 as int].body, who, k) && actors[k].actor == actor;
            assert(stops(hits[h1 as int], actors, shooter));
            assert(stops(hits[h2 as int], actors, shooter));
        },
        (ProjectileHit::Actor { hit: h1, actor: a1, who: w1 }, ProjectileHit::Actor { hit: h2, actor: a2, who: w2 }) => {
            let k1 = choose|k: int| is_first_struck(actors, hits[h1 as int].body, w1, k) && actors[k].actor == a1;
            let k2 = choose|k: int| is_first_struck(actors, hits[h2 as int].body, w2, k) && actors[k].actor == a2;
            assert(stops(hits[h1 as int], actors, shooter));
            assert(stops(hits[h2 as int], actors, shooter));
            if h1 == h2 {
                if k1 < k2 {
                    assert(!(actors[k1].body == hits[h2 as int].body && actors[k1].actor != w2));
                } else if k2 < k1 {
                    assert(!(actors[k2].body == hits[h1 as int].body && actors[k2].actor != w1));
                }
            }
        },
    }
}

/// Each kind is saved under its place in the list of kinds, from 0.
pub proof fn projectilekind_ids(k: ProjectileKind)
    ensures
        k.spec_id() == (if k == ProjectileKind::Plasma { 0int } else if k == ProjectileKind::Bullet { 1int } else { 2int }),
{
}

/// Every projectile is moved by the game; rockets sound an explosion on
/// impact, plasma and bullets the sound of a bullet on concrete.
pub proof fn projectile_definitions(k: ProjectileKind)
    ensures
        spec_projectile_definition(k).is_kinematic,
        spec_projectile_definition(k).impact_sound == (if k == ProjectileKind::Rocket {
            "data/sounds/explosion.ogg"
        } else {
            "data/sounds/bullet_impact_concrete.ogg"
        }),
{
}

/// Where a projectile stops, in terms of the hits: nothing before the stop
/// is the level or the body of an actor other than the shooter (and with
/// no known shooter no actor stops it). A stop on the level is on a level
/// hit; a stop on an actor is on a hit that is not the level, names an
/// actor other than the shooter whose body was hit there, and no actor
/// before it in the list has that body without being the shooter. A miss
/// means no hit stops it.
pub proof fn projectiles_stop_at_the_first_obstacle(
    hits: Seq<RayHit>,
    actors: Seq<ActorBody>,
    shooter: Option<ActorHandle>,
    r: ProjectileHit,
)
    requires
        is_first_hit(hits, actors, shooter, r),
    ensures
        forall|i: int|
            0 <= i < hits.len() && (match r {
                ProjectileHit::Miss => true,
                ProjectileHit::Geometry { hit } => i < hit,
                ProjectileHit::Actor { hit, .. } => i < hit,
            }) ==> !hits[i].is_level_geometry && (forall|k: int|
                0 <= k < actors.len() && actors[k].body == hits[i].body && shooter is Some
                    ==> shooter == Some(actors[k].actor)),
        r matches ProjectileHit::Geometry { hit } ==> hit < hits.len() && hits[hit as int].is_level_geometry,
        r matches ProjectileHit::Actor { hit, actor, who } ==> {
            &&& hit < hits.len()
            &&& !hits[hit as int].is_level_geometry
            &&& shooter == Some(who)
            &&& actor != who
            &&& exists|k: int| 0 <= k < actors.len() && actors[k].actor == actor && actors[k].body == hits[hit as int].body
                && forall|j: int| 0 <= j < k && actors[j].body == hits[hit as int].body ==> actors[j].actor == who
        },
{
    assert forall|i: int|
        0 <= i < hits.len() && (match r {
            ProjectileHit::Miss => true,
            ProjectileHit::Geometry { hit } => i < hit,
            ProjectileHit::Actor { hit, .. } => i < hit,
        }) implies !hits[i].is_level_geometry && (forall|k: int|
            0 <= k < actors.len() && actors[k].body == hits[i].body && shooter is Some
                ==> shooter == Some(actors[k].actor)) by {
        assert(!stops(hits[i], actors, shooter));
        assert forall|k: int| 0 <= k < actors.len() && actors[k].body == hits[i].body && shooter is Some
            implies shooter == Some(actors[k].actor) by {
            if let Some(s) = shooter {
                if actors[k].actor != s {
                    assert(strikes_someone(actors, hits[i].body, s));
                }
            }
        }
    }
}

} // verus!

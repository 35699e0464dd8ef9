//! Kinds of weapons, their definitions, and a weapon's ammunition and owner.

use vstd::prelude::*;
use crate::handle::{ActorHandle, NodeHandle};
use crate::projectile::ProjectileKind;
use crate::text::{signed_decimal, unknown_id_message};

verus! {

/// The kinds of weapons an actor can carry.
#[derive(Clone, Copy, PartialEq, Eq, Structural, Hash, Debug)]
pub enum WeaponKind {
    M4,
    Ak47,
    PlasmaRifle,
}

impl WeaponKind {
    /// The id under which a kind is saved.
    pub open spec fn spec_id(self) -> int {
        match self {
            WeaponKind::M4 => 0,
            WeaponKind::Ak47 => 1,
            WeaponKind::PlasmaRifle => 2,
        }
    }

    /// The id under which this kind is saved.
    pub fn id(self) -> (i: u32)
        ensures
            i == self.spec_id(),
    {
        match self {
            WeaponKind::M4 => 0,
            WeaponKind::Ak47 => 1,
            WeaponKind::PlasmaRifle => 2,
        }
    }

    /// The kind saved under `id`; an id that names no kind is refused with a message.
    pub fn new(id: u32) -> (r: Result<Self, String>)
        ensures
            r is Ok <==> id < 3,
            r matches Ok(k) ==> k.spec_id() == id,
            r matches Err(e) ==> e@ == "unknown weapon kind "@ + signed_decimal(id as int),
    {
        match id {
            0 => Ok(WeaponKind::M4),
            1 => Ok(WeaponKind::Ak47),
            2 => Ok(WeaponKind::PlasmaRifle),
            _ => Err(unknown_id_message("unknown weapon kind ", id as i64)),
        }
    }
}

impl WeaponKind {
    /// The name of a kind, as `{:?}` prints it.
    pub open spec fn spec_name(self) -> Seq<char> {
        match self {
            WeaponKind::M4 => "M4"@,
            WeaponKind::Ak47 => "Ak47"@,
            WeaponKind::PlasmaRifle => "PlasmaRifle"@,
        }
    }

    /// The name of this kind, as `{:?}` prints it.
    pub fn name(&self) -> (n: &'static str)
        ensures
            n@ == self.spec_name(),
    {
        match self {
            WeaponKind::M4 => "M4",
            WeaponKind::Ak47 => "Ak47",
            WeaponKind::PlasmaRifle => "PlasmaRifle",
        }
    }
}

/// Ids name kinds one to one: every kind has an id in `0..3`, and no two
/// kinds share one. So a kind written by its id is read back as itself.
pub proof fn weapon_kind_ids_are_unique(a: WeaponKind, b: WeaponKind)
    ensures
        0 <= a.spec_id() < 3,
        a.spec_id() == b.spec_id() ==> a == b,
{
}

/// The model, sound, starting ammunition and projectile of a kind of weapon.
#[derive(Clone, Copy, PartialEq, Eq, Debug)]
pub struct WeaponDefinition {
    pub model: &'static str,
    pub shot_sound: &'static str,
    pub ammo: u32,
    pub projectile: ProjectileKind,
}

/// The definition of each kind of weapon.
pub open spec fn spec_weapon_definition(kind: WeaponKind) -> WeaponDefinition {
    match kind {
        WeaponKind::M4 => WeaponDefinition {
            model: "data/models/m4.FBX",
            shot_sound: "data/sounds/m4_shot.ogg",
            ammo: 200,
            projectile: ProjectileKind::Bullet,
        },
        WeaponKind::Ak47 => WeaponDefinition {
            model: "data/models/ak47.FBX",
            shot_sound: "data/sounds/m4_shot.ogg",
            ammo: 200,
            projectile: ProjectileKind::Bullet,
        },
        WeaponKind::PlasmaRifle => WeaponDefinition {
            model: "data/models/plasma_rifle.FBX",
            shot_sound: "data/sounds/plasma_shot.ogg",
            ammo: 100,
            projectile: ProjectileKind::Plasma,
        },
    }
}

/// A weapon as the rules see it: its kind, its ammunition and the actor that holds it.
pub struct Weapon {
    kind: WeaponKind,
    ammo: u32,
    owner: ActorHandle,
}

/// The state of a weapon.
pub struct WeaponState {
    pub kind: WeaponKind,
    pub ammo: nat,
    pub owner: ActorHandle,
}

impl View for Weapon {
    type V = WeaponState;

    closed spec fn view(&self) -> WeaponState {
        WeaponState { kind: self.kind, ammo: self.ammo as nat, owner: self.owner }
    }
}

impl Default for Weapon {
    /// An M4 with 250 rounds that nobody holds.
    fn default() -> (w: Self)
        ensures
            w@.kind == WeaponKind::M4,
            w@.ammo == 250,
            w@.owner.spec_is_none(),
    {
        Weapon { kind: WeaponKind::M4, ammo: 250, owner: ActorHandle::none() }
    }
}

impl Weapon {
    /// The definition of a kind of weapon.
    pub fn get_definition(kind: WeaponKind) -> (d: WeaponDefinition)
        ensures
            d == spec_weapon_definition(kind),
    {
        match kind {
            WeaponKind::M4 => WeaponDefinition {
                model: "data/models/m4.FBX",
                shot_sound: "data/sounds/m4_shot.ogg",
                ammo: 200,
                projectile: ProjectileKind::Bullet,
            },
            WeaponKind::Ak47 => WeaponDefinition {
                model: "data/models/ak47.FBX",
                shot_sound: "data/sounds/m4_shot.ogg",
                ammo: 200,
                projectile: ProjectileKind::Bullet,
            },
            WeaponKind::PlasmaRifle => WeaponDefinition {
                model: "data/models/plasma_rifle.FBX",
                shot_sound: "data/sounds/plasma_shot.ogg",
                ammo: 100,
                projectile: ProjectileKind::Plasma,
            },
        }
    }

    /// The ammunition a weapon can hold.
    pub open spec fn max_ammo() -> nat {
        u32::MAX as nat
    }

    /// A new weapon of a kind, loaded with the kind's starting ammunition, that nobody holds.
    pub fn new(kind: WeaponKind) -> (w: Self)
        ensures
            w@.kind == kind,
            w@.ammo == spec_weapon_definition(kind).ammo,
            w@.owner.spec_is_none(),
    {
        let definition = Weapon::get_definition(kind);
        Weapon { kind, ammo: definition.ammo, owner: ActorHandle::none() }
    }

    /// A weapon as a saved game recorded it.
    pub fn restore(kind: WeaponKind, ammo: u32, owner: ActorHandle) -> (w: Self)
        ensures
            w@ == (WeaponState { kind, ammo: ammo as nat, owner }),
    {
        Weapon { kind, ammo, owner }
    }

    /// The kind of the weapon.
    pub fn get_kind(&self) -> (k: WeaponKind)
        ensures
            k == self@.kind,
    {
        self.kind
    }

    /// The rounds left in the weapon.
    pub fn get_ammo(&self) -> (a: u32)
        ensures
            a == self@.ammo,
    {
        self.ammo
    }

    /// The actor that holds the weapon.
    pub fn get_owner(&self) -> (o: ActorHandle)
        ensures
            o == self@.owner,
    {
        self.owner
    }

    /// Gives the weapon to an actor.
    pub fn set_owner(&mut self, owner: ActorHandle)
        ensures
            final(self)@ == (WeaponState { owner, ..old(self)@ }),
    {
        self.owner = owner;
    }

    /// Adds rounds to the weapon.
    pub fn add_ammo(&mut self, amount: u32)
        requires
            old(self)@.ammo + amount <= Weapon::max_ammo(),
        ensures
            final(self)@ == (WeaponState { ammo: old(self)@.ammo + amount as nat, ..old(self)@ }),
    {
        self.ammo = self.ammo + amount;
    }

    /// Fires one round if there is one and the shoot interval of the weapon
    /// has passed since its last shot (`cooled_down`); says whether it fired.
    pub fn try_shoot(&mut self, cooled_down: bool) -> (fired: bool)
        ensures
            fired == (old(self)@.ammo != 0 && cooled_down),
            final(self)@ == (WeaponState {
                ammo: if fired { (old(self)@.ammo - 1) as nat } else { old(self)@.ammo },
                ..old(self)@
            }),
    {
        if self.ammo != 0 && cooled_down {
            self.ammo = self.ammo - 1;
            true
        } else {
            false
        }
    }
}

/// A hit of the laser sight's ray marks where the sight points unless it is
/// on the body of the weapon's owner. `hit_body` is the rigid body hit, if
/// the ray hit one; `owner_body` is the owner's body, if the owner is on
/// the level.
pub open spec fn marks_target(hit_body: Option<NodeHandle>, owner_body: Option<NodeHandle>) -> bool {
    match (hit_body, owner_body) {
        (Some(b), Some(o)) => b != o,
        _ => true,
    }
}

/// `result` is the hit the laser dot sits on: the last hit along the ray
/// that is not on the owner's body, or none if every hit is.
pub open spec fn is_laser_dot_hit(hits: Seq<Option<NodeHandle>>, owner_body: Option<NodeHandle>, result: Option<usize>) -> bool {
    match result {
        Some(i) => {
            &&& i < hits.len()
            &&& marks_target(hits[i as int], owner_body)
            &&& forall|j: int| i < j < hits.len() ==> !marks_target(#[trigger] hits[j], owner_body)
        },
        None => forall|j: int| 0 <= j < hits.len() ==> !marks_target(#[trigger] hits[j], owner_body),
    }
}

/// The hit of the laser sight's ray that the laser dot sits on, given the
/// bodies hit along the ray and the owner's body.
pub fn laser_dot_hit(hits: &[Option<NodeHandle>], owner_body: Option<NodeHandle>) -> (r: Option<usize>)
    ensures
        is_laser_dot_hit(hits@, owner_body, r),
{
    let mut i: usize = hits.len();
    while i > 0
        invariant
            i <= hits@.len(),
            forall|j: int| i <= j < hits@.len() ==> !marks_target(#[trigger] hits@[j], owner_body),
        decreases i,
    {
        i = i - 1;
        let marks = match (hits[i], owner_body) {
            (Some(b), Some(o)) => b != o,
            _ => true,
        };
        if marks {
            return Some(i);
        }
    }
    None
}

/// The rounds left and the shots fired after a weapon holding `ammo`
/// rounds is tried once per frame, with `cooled_down[i]` telling whether
/// its shoot interval had passed on frame `i`.
pub open spec fn shoot_frames(ammo: nat, cooled_down: Seq<bool>) -> (nat, nat)
    decreases cooled_down.len(),
{
    if cooled_down.len() == 0 {
        (ammo, 0)
    } else {
        let fired = ammo != 0 && cooled_down[0];
        let left = if fired { (ammo - 1) as nat } else { ammo };
        let (rest_left, rest_fired) = shoot_frames(left, cooled_down.drop_first());
        (rest_left, rest_fired + if fired { 1nat } else { 0nat })
    }
}

/// Rounds are never made up: over any run of frames, the shots fired and
/// the rounds left add up to the rounds the weapon held, so a weapon never
/// fires more shots than it holds rounds.
pub proof fn rounds_are_conserved(ammo: nat, cooled_down: Seq<bool>)
    ensures
        shoot_frames(ammo, cooled_down).0 + shoot_frames(ammo, cooled_down).1 == ammo,
        shoot_frames(ammo, cooled_down).1 <= ammo,
    decreases cooled_down.len(),
{
    if cooled_down.len() > 0 {
        let fired = ammo != 0 && cooled_down[0];
        let left = if fired { (ammo - 1) as nat } else { ammo };
        rounds_are_conserved(left, cooled_down.drop_first());
    }
}

/// The M4 and the AK-47 fire bullets and start with 200 rounds; the plasma
/// rifle fires plasma and starts with 100.
pub proof fn weapons_fire_their_projectiles(kind: WeaponKind)
    ensures
        spec_weapon_definition(kind).projectile == (if kind == WeaponKind::PlasmaRifle {
            ProjectileKind::Plasma
        } else {
            ProjectileKind::Bullet
        }),
        spec_weapon_definition(kind).ammo == (if kind == WeaponKind::PlasmaRifle {
            100u32
        } else {
            200u32
        }),
{
}

/// Each kind is saved under its place in the list of kinds, from 0, and
/// is named by its variant, as `{:?}` prints it.
pub proof fn weaponkind_ids_and_names(k: WeaponKind)
    ensures
        k.spec_id() == (if k == WeaponKind::M4 { 0int } else if k == WeaponKind::Ak47 { 1int } else { 2int }),
        k == WeaponKind::M4 ==> k.spec_name() == "M4"@,
        k == WeaponKind::Ak47 ==> k.spec_name() == "Ak47"@,
        k == WeaponKind::PlasmaRifle ==> k.spec_name() == "PlasmaRifle"@,
{
}

/// The laser dot sits on the last hit along the ray that is not on the
/// owner's body (a hit of no body counts as a target), or nowhere when
/// every hit is on the owner's body.
pub proof fn laser_dot_skips_the_owner(hits: Seq<Option<NodeHandle>>, owner_body: Option<NodeHandle>, r: Option<usize>)
    requires
        is_laser_dot_hit(hits, owner_body, r),
    ensures
        r is Some ==> r->0 < hits.len() && !(owner_body is Some && hits[r->0 as int] == owner_body),
        r is Some ==> forall|j: int| r->0 < j < hits.len() ==> on_owner(hits[j], owner_body),
        r is None ==> forall|j: int| 0 <= j < hits.len() ==> on_owner(hits[j], owner_body),
{
    assert forall|h: Option<NodeHandle>| #[trigger] on_owner(h, owner_body) == !marks_target(h, owner_body) by {
        match (h, owner_body) {
            (Some(b), Some(o)) => {},
            _ => {},
        }
    }
}

/// The ray hit `hit_body`, which is the body of the owner (who is on the level).
pub open spec fn on_owner(hit_body: Option<NodeHandle>, owner_body: Option<NodeHandle>) -> bool {
    owner_body is Some && hit_body == owner_body
}

/// The M4's model and sound, the AK-47's model (it sounds like the M4),
/// and the plasma rifle's model and sound.
pub proof fn weapon_assets(kind: WeaponKind)
    ensures
        kind == WeaponKind::M4 ==> spec_weapon_definition(kind).model == "data/models/m4.FBX"
            && spec_weapon_definition(kind).shot_sound == "data/sounds/m4_shot.ogg",
        kind == WeaponKind::Ak47 ==> spec_weapon_definition(kind).model == "data/models/ak47.FBX"
            && spec_weapon_definition(kind).shot_sound == "data/sounds/m4_shot.ogg",
        kind == WeaponKind::PlasmaRifle ==> spec_weapon_definition(kind).model
            == "data/models/plasma_rifle.FBX" && spec_weapon_definition(kind).shot_sound
            == "data/sounds/plasma_shot.ogg",
{
}

} // verus!

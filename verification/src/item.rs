//! Kinds of items that lie on a level.

use vstd::prelude::*;
use crate::text::{signed_decimal, unknown_id_message};

verus! {

/// The kinds of items an actor can pick up.
#[derive(Clone, Copy, PartialEq, Eq, Structural, Hash, Debug)]
pub enum ItemKind {
    Medkit,
    Plasma,
    Ak47Ammo762,
    M4Ammo556,
}

impl ItemKind {
    /// The id under which a kind is saved.
    pub open spec fn spec_id(self) -> int {
        match self {
            ItemKind::Medkit => 0,
            ItemKind::Plasma => 1,
            ItemKind::Ak47Ammo762 => 2,
            ItemKind::M4Ammo556 => 3,
        }
    }

    /// The kind saved under `id`; an id that names no kind is refused with a message.
    pub fn from_id(id: u32) -> (r: Result<ItemKind, String>)
        ensures
            r is Ok <==> id < 4,
            r matches Ok(k) ==> k.spec_id() == id,
            r matches Err(e) ==> e@ == "Unknown item kind "@ + signed_decimal(id as int),
    {
        match id {
            0 => Ok(ItemKind::Medkit),
            1 => Ok(ItemKind::Plasma),
            2 => Ok(ItemKind::Ak47Ammo762),
            3 => Ok(ItemKind::M4Ammo556),
            _ => Err(unknown_id_message("Unknown item kind ", id as i64)),
        }
    }

    /// The id under which this kind is saved.
    pub fn id(&self) -> (i: u32)
        ensures
            i == self.spec_id(),
    {
        match self {
            ItemKind::Medkit => 0,
            ItemKind::Plasma => 1,
            ItemKind::Ak47Ammo762 => 2,
            ItemKind::M4Ammo556 => 3,
        }
    }
}

impl ItemKind {
    /// The name of a kind, as `{:?}` prints it.
    pub open spec fn spec_name(self) -> Seq<char> {
        match self {
            ItemKind::Medkit => "Medkit"@,
            ItemKind::Plasma => "Plasma"@,
            ItemKind::Ak47Ammo762 => "Ak47Ammo762"@,
            ItemKind::M4Ammo556 => "M4Ammo556"@,
        }
    }

    /// The name of this kind, as `{:?}` prints it.
    pub fn name(&self) -> (n: &'static str)
        ensures
            n@ == self.spec_name(),
    {
        match self {
            ItemKind::Medkit => "Medkit",
            ItemKind::Plasma => "Plasma",
            ItemKind::Ak47Ammo762 => "Ak47Ammo762",
            ItemKind::M4Ammo556 => "M4Ammo556",
        }
    }
}

/// Ids name kinds one to one: every kind has an id in `0..4`, and no two
/// kinds share one. So a kind written by its id is read back as itself.
pub proof fn item_kind_ids_are_unique(a: ItemKind, b: ItemKind)
    ensures
        0 <= a.spec_id() < 4,
        a.spec_id() == b.spec_id() ==> a == b,
{
}

/// The model of each kind of item.
pub open spec fn spec_item_model(kind: ItemKind) -> &'static str {
    match kind {
        ItemKind::Medkit => "data/models/medkit.fbx",
        ItemKind::Plasma => "data/models/yellow_box.FBX",
        ItemKind::Ak47Ammo762 => "data/models/box_medium.FBX",
        ItemKind::M4Ammo556 => "data/models/box_small.FBX",
    }
}

/// The model file of a kind of item.
pub fn item_model(kind: ItemKind) -> (m: &'static str)
    ensures
        m == spec_item_model(kind),
{
    match kind {
        ItemKind::Medkit => "data/models/medkit.fbx",
        ItemKind::Plasma => "data/models/yellow_box.FBX",
        ItemKind::Ak47Ammo762 => "data/models/box_medium.FBX",
        ItemKind::M4Ammo556 => "data/models/box_small.FBX",
    }
}

/// Each kind is saved under its place in the list of kinds, from 0, and
/// is named by its variant, as `{:?}` prints it.
pub proof fn itemkind_ids_and_names(k: ItemKind)
    ensures
        k.spec_id() == (if k == ItemKind::Medkit { 0int } else if k == ItemKind::Plasma { 1int } else if k == ItemKind::Ak47Ammo762 { 2int } else { 3int }),
        k == ItemKind::Medkit ==> k.spec_name() == "Medkit"@,
        k == ItemKind::Plasma ==> k.spec_name() == "Plasma"@,
        k == ItemKind::Ak47Ammo762 ==> k.spec_name() == "Ak47Ammo762"@,
        k == ItemKind::M4Ammo556 ==> k.spec_name() == "M4Ammo556"@,
{
}

/// The model each kind of item is shown with.
pub proof fn item_models(k: ItemKind)
    ensures
        k == ItemKind::Medkit ==> spec_item_model(k) == "data/models/medkit.fbx",
        k == ItemKind::Plasma ==> spec_item_model(k) == "data/models/yellow_box.FBX",
        k == ItemKind::Ak47Ammo762 ==> spec_item_model(k) == "data/models/box_medium.FBX",
        k == ItemKind::M4Ammo556 ==> spec_item_model(k) == "data/models/box_small.FBX",
{
}

} // verus!

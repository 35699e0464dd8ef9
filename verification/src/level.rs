//! Rules of the level: respawn entry kinds, what a picked-up item does to
//! the actor that took it, who earns a frag and when a deathmatch ends.

use vstd::prelude::*;
use crate::bot::BotKind;
use crate::hud::{is_highest_at, is_next_highest_at, two_highest};
use crate::item::ItemKind;
use crate::text::{
    decimal, has_prefix, prefixes_are_leading_characters, push_decimal, signed_decimal, starts_with,
    unknown_id_message,
};
use crate::weapon::WeaponKind;

verus! {

/// Who waits in a respawn entry: a bot or the player.
#[derive(Clone, Copy, PartialEq, Eq, Structural, Debug)]
pub enum RespawnKind {
    Bot,
    Player,
}

impl RespawnKind {
    /// The id under which a kind of entry is saved.
    pub open spec fn spec_id(self) -> int {
        match self {
            RespawnKind::Bot => 0,
            RespawnKind::Player => 1,
        }
    }

    /// The id under which this kind of entry is saved.
    pub fn id(&self) -> (i: u32)
        ensures
            i == self.spec_id(),
    {
        match self {
            RespawnKind::Bot => 0,
            RespawnKind::Player => 1,
        }
    }

    /// The kind of entry saved under `id`; an id that names none is refused with a message.
    pub fn from_id(id: u32) -> (r: Result<Self, String>)
        ensures
            r is Ok <==> id < 2,
            r matches Ok(k) ==> k.spec_id() == id,
            r matches Err(e) ==> e@ == "Invalid RespawnEntry type "@ + signed_decimal(id as int),
    {
        match id {
            0 => Ok(RespawnKind::Bot),
            1 => Ok(RespawnKind::Player),
            _ => Err(unknown_id_message("Invalid RespawnEntry type ", id as i64)),
        }
    }
}

/// Ids name kinds of respawn entries one to one.
pub proof fn respawn_kind_ids_are_unique(a: RespawnKind, b: RespawnKind)
    ensures
        0 <= a.spec_id() < 2,
        a.spec_id() == b.spec_id() ==> a == b,
{
}

/// The health a medkit restores.
pub const MEDKIT_HEALTH: u32 = 20;

/// The rounds an ammunition box holds.
pub const AMMO_BOX_ROUNDS: u32 = 200;

/// What taking an item does to the actor that took it.
#[derive(Clone, Copy, PartialEq, Eq, Structural, Debug)]
pub enum ItemEffect {
    /// The actor heals by this much.
    Heal(u32),
    /// The carried weapon at this position in the actor's list gets this many rounds.
    AddAmmo { weapon: usize, amount: u32 },
    /// The item is of no use to the actor.
    Nothing,
}

/// The kind of weapon an ammunition item loads, if it is one.
pub open spec fn spec_ammo_for(kind: ItemKind) -> Option<WeaponKind> {
    match kind {
        ItemKind::Medkit => None,
        ItemKind::Plasma => Some(WeaponKind::PlasmaRifle),
        ItemKind::Ak47Ammo762 => Some(WeaponKind::Ak47),
        ItemKind::M4Ammo556 => Some(WeaponKind::M4),
    }
}

/// `i` is the position of the first weapon of kind `wanted` in `kinds`.
pub open spec fn is_first_of_kind(kinds: Seq<WeaponKind>, wanted: WeaponKind, i: int) -> bool {
    &&& 0 <= i < kinds.len()
    &&& kinds[i] == wanted
    &&& forall|j: int| 0 <= j < i ==> kinds[j] != wanted
}

/// `effect` is what an item of `kind` does to an actor whose weapons, in
/// the order the actor got them, are of the kinds `weapon_kinds`: a medkit
/// heals; an ammunition box loads the first carried weapon that takes it,
/// and is of no use to an actor without such a weapon.
pub open spec fn is_item_effect(kind: ItemKind, weapon_kinds: Seq<WeaponKind>, effect: ItemEffect) -> bool {
    match spec_ammo_for(kind) {
        None => effect == ItemEffect::Heal(MEDKIT_HEALTH),
        Some(wanted) => match effect {
            ItemEffect::AddAmmo { weapon, amount } => amount == AMMO_BOX_ROUNDS
                && is_first_of_kind(weapon_kinds, wanted, weapon as int),
            ItemEffect::Nothing => !weapon_kinds.contains(wanted),
            ItemEffect::Heal(_) => false,
        },
    }
}

/// The kind of weapon an ammunition item loads; `None` for a medkit.
pub fn ammo_for(kind: ItemKind) -> (w: Option<WeaponKind>)
    ensures
        w == spec_ammo_for(kind),
{
    match kind {
        ItemKind::Medkit => None,
        ItemKind::Plasma => Some(WeaponKind::PlasmaRifle),
        ItemKind::Ak47Ammo762 => Some(WeaponKind::Ak47),
        ItemKind::M4Ammo556 => Some(WeaponKind::M4),
    }
}

/// What taking an item of `kind` does to an actor carrying weapons of the
/// kinds `weapon_kinds`, in the order it got them.
pub fn give_item(kind: ItemKind, weapon_kinds: &[WeaponKind]) -> (e: ItemEffect)
    ensures
        is_item_effect(kind, weapon_kinds@, e),
{
    match ammo_for(kind) {
        None => ItemEffect::Heal(MEDKIT_HEALTH),
        Some(wanted) => {
            let n = weapon_kinds.len();
            let mut i: usize = 0;
            while i < n
                invariant
                    n == weapon_kinds@.len(),
                    i <= n,
                    spec_ammo_for(kind) == Some(wanted),
                    forall|j: int| 0 <= j < i ==> weapon_kinds@[j] != wanted,
                decreases n - i,
            {
                if weapon_kinds[i] == wanted {
                    return ItemEffect::AddAmmo { weapon: i, amount: AMMO_BOX_ROUNDS };
                }
                i = i + 1;
            }
            ItemEffect::Nothing
        },
    }
}

/// An item has exactly one effect on an actor: a medkit always heals by
/// the same amount, and an ammunition box loads one weapon, the first one
/// that takes it, or none when the actor carries no such weapon.
pub proof fn item_effect_is_unique(kind: ItemKind, weapon_kinds: Seq<WeaponKind>, a: ItemEffect, b: ItemEffect)
    requires
        is_item_effect(kind, weapon_kinds, a),
        is_item_effect(kind, weapon_kinds, b),
    ensures
        a == b,
{
    if let Some(wanted) = spec_ammo_for(kind) {
        match (a, b) {
            (ItemEffect::AddAmmo { weapon: i, .. }, ItemEffect::AddAmmo { weapon: j, .. }) => {
                if i < j {
                    assert(weapon_kinds[i as int] != wanted);
                } else if j < i {
                    assert(weapon_kinds[j as int] != wanted);
                }
            },
            (ItemEffect::AddAmmo { weapon: i, .. }, ItemEffect::Nothing) => {
                assert(weapon_kinds[i as int] == wanted);
            },
            (ItemEffect::Nothing, ItemEffect::AddAmmo { weapon: j, .. }) => {
                assert(weapon_kinds[j as int] == wanted);
            },
            _ => {},
        }
    }
}

/// A killer earns a frag when its damage kills an actor that was alive;
/// damage from no actor (the environment) earns none.
pub fn earns_frag(was_dead: bool, is_dead: bool, killer_known: bool) -> (f: bool)
    ensures
        f == (!was_dead && is_dead && killer_known),
{
    !was_dead && is_dead && killer_known
}

/// The notification that an actor got a weapon of `kind`.
pub fn weapon_pickup_notification(kind: WeaponKind) -> (t: String)
    ensures
        t@ == "Actor picked up weapon "@ + kind.spec_name(),
{
    let mut t = String::from_str("Actor picked up weapon ");
    t.append(kind.name());
    t
}

/// The notification that an actor picked up an item of `kind`.
pub fn item_pickup_notification(kind: ItemKind) -> (t: String)
    ensures
        t@ == "Actor picked up item "@ + kind.spec_name(),
{
    let mut t = String::from_str("Actor picked up item ");
    t.append(kind.name());
    t
}

/// The notification that the bot called `name` has spawned.
pub fn bot_spawned_notification(name: &str) -> (t: String)
    ensures
        t@ == "Bot "@ + name@ + " spawned!"@,
{
    let mut t = String::from_str("Bot ");
    t.append(name);
    t.append(" spawned!");
    t
}

/// The name of a bot added to a level that holds `actor_count` actors:
/// the given name if there is one, else `Bot <kind> <actor_count>`.
pub fn bot_name(kind: BotKind, given: Option<String>, actor_count: u32) -> (n: String)
    ensures
        n@ == match given {
            Some(g) => g@,
            None => "Bot "@ + kind.spec_name() + " "@ + decimal(actor_count as nat),
        },
{
    match given {
        Some(g) => g,
        None => {
            let mut n = String::from_str("Bot ");
            n.append(kind.name());
            n.append(" ");
            push_decimal(&mut n, actor_count as u64);
            n
        },
    }
}

/// What a node of the level's map stands for, by the start of its name.
#[derive(Clone, Copy, PartialEq, Eq, Structural, Debug)]
pub enum MapMarker {
    /// A jump pad; its launch direction runs from the node `<name>_Begin` to `<name>_End`.
    JumpPad,
    /// An item of this kind lies here.
    Item(ItemKind),
    /// Actors can spawn here.
    SpawnPoint,
    /// An actor that enters this volume dies.
    DeathZone,
    /// Nothing the game cares about.
    Scenery,
}

/// The marker a map node's name makes: the first of the prefixes
/// `JumpPad`, `Medkit`, `Ammo_Ak47`, `Ammo_M4`, `Ammo_Plasma`,
/// `SpawnPoint` and `DeathZone` that the name starts with.
pub open spec fn spec_map_marker(name: Seq<char>) -> MapMarker {
    if has_prefix(name, "JumpPad"@) {
        MapMarker::JumpPad
    } else if has_prefix(name, "Medkit"@) {
        MapMarker::Item(ItemKind::Medkit)
    } else if has_prefix(name, "Ammo_Ak47"@) {
        MapMarker::Item(ItemKind::Ak47Ammo762)
    } else if has_prefix(name, "Ammo_M4"@) {
        MapMarker::Item(ItemKind::M4Ammo556)
    } else if has_prefix(name, "Ammo_Plasma"@) {
        MapMarker::Item(ItemKind::Plasma)
    } else if has_prefix(name, "SpawnPoint"@) {
        MapMarker::SpawnPoint
    } else if has_prefix(name, "DeathZone"@) {
        MapMarker::DeathZone
    } else {
        MapMarker::Scenery
    }
}

/// What the map node called `name` stands for.
pub fn map_marker(name: &str) -> (m: MapMarker)
    ensures
        m == spec_map_marker(name@),
{
    if starts_with(name, "JumpPad") {
        MapMarker::JumpPad
    } else if starts_with(name, "Medkit") {
        MapMarker::Item(ItemKind::Medkit)
    } else if starts_with(name, "Ammo_Ak47") {
        MapMarker::Item(ItemKind::Ak47Ammo762)
    } else if starts_with(name, "Ammo_M4") {
        MapMarker::Item(ItemKind::M4Ammo556)
    } else if starts_with(name, "Ammo_Plasma") {
        MapMarker::Item(ItemKind::Plasma)
    } else if starts_with(name, "SpawnPoint") {
        MapMarker::SpawnPoint
    } else if starts_with(name, "DeathZone") {
        MapMarker::DeathZone
    } else {
        MapMarker::Scenery
    }
}

/// The names of the nodes that mark where the jump pad called `name`
/// launches from and to: `<name>_Begin` and `<name>_End`.
pub fn jump_pad_marker_names(name: &str) -> (r: (String, String))
    ensures
        r.0@ == name@ + "_Begin"@,
        r.1@ == name@ + "_End"@,
{
    let mut begin = String::from_str(name);
    begin.append("_Begin");
    let mut end = String::from_str(name);
    end.append("_End");
    (begin, end)
}

/// Some actor has made at least `frag_limit` frags.
pub open spec fn reaches_frag_limit(frags: Seq<u32>, frag_limit: u32) -> bool {
    exists|i: int| 0 <= i < frags.len() && frags[i] >= frag_limit
}

/// The actor at `i` has more frags than every other actor.
pub open spec fn leads_alone(frags: Seq<u32>, i: int) -> bool {
    &&& 0 <= i < frags.len()
    &&& forall|k: int| 0 <= k < frags.len() && k != i ==> frags[k] < frags[i]
}

/// One actor alone holds the highest frag count.
pub open spec fn has_sole_leader(frags: Seq<u32>) -> bool {
    exists|i: int| leads_alone(frags, i)
}

/// Whether a deathmatch is over, given each actor's frags, the match's frag
/// limit and whether its time limit has passed: it ends when an actor
/// reaches the frag limit, or when the time is up and one actor leads
/// alone; a tie for the lead at the time limit plays on.
pub fn is_match_over(frags: &[u32], frag_limit: u32, time_limit_reached: bool) -> (over: bool)
    ensures
        over == (reaches_frag_limit(frags@, frag_limit) || (time_limit_reached && has_sole_leader(
            frags@,
        ))),
{
    let (first, second) = two_highest(frags);
    match first {
        None => false,
        Some(a) => {
            let ghost i = choose|i: int| is_highest_at(frags@, i) && frags@[i] == a;
            assert(reaches_frag_limit(frags@, frag_limit) <==> a >= frag_limit) by {
                if a >= frag_limit {
                    assert(frags@[i] >= frag_limit);
                }
            }
            let sole = match second {
                None => true,
                Some(b) => a > b,
            };
            proof {
                match second {
                    None => {
                        assert(frags@.len() == 1);
                        assert(leads_alone(frags@, 0));
                    },
                    Some(b) => {
                        let (i2, j) = choose|i2: int, j: int|
                            is_highest_at(frags@, i2) && Some(frags@[i2]) == first
                                && is_next_highest_at(frags@, i2, j) && frags@[j] == b;
                        if a > b {
                            assert(leads_alone(frags@, i2));
                        } else {
                            assert(frags@[j] == a);
                            assert forall|c: int| !leads_alone(frags@, c) by {
                                if 0 <= c < frags@.len() {
                                    if c == i2 {
                                        assert(frags@[c] <= a);
                                        assert(!(frags@[j] < frags@[c]));
                                    } else {
                                        assert(frags@[c] <= frags@[i2]);
                                        assert(!(frags@[i2] < frags@[c]));
                                    }
                                }
                            }
                        }
                    },
                }
            }
            a >= frag_limit || (time_limit_reached && sole)
        },
    }
}

/// Respawn entries are saved as 0 for a bot and 1 for the player.
pub proof fn respawn_kind_ids(k: RespawnKind)
    ensures
        k.spec_id() == (if k == RespawnKind::Bot { 0int } else { 1int }),
{
}

/// What an item does: a medkit heals by 20. An ammunition box (plasma for
/// the plasma rifle, 7.62 for the AK-47, 5.56 for the M4) adds 200 rounds
/// to the first carried weapon of its kind, and does nothing to an actor
/// that carries no such weapon.
pub proof fn items_do_what_they_are_for(kind: ItemKind, weapon_kinds: Seq<WeaponKind>, e: ItemEffect)
    requires
        is_item_effect(kind, weapon_kinds, e),
    ensures
        kind == ItemKind::Medkit ==> e == ItemEffect::Heal(20),
        kind != ItemKind::Medkit ==> !(e is Heal),
        kind == ItemKind::Plasma ==> ammo_goes_to_first(weapon_kinds, WeaponKind::PlasmaRifle, e),
        kind == ItemKind::Ak47Ammo762 ==> ammo_goes_to_first(weapon_kinds, WeaponKind::Ak47, e),
        kind == ItemKind::M4Ammo556 ==> ammo_goes_to_first(weapon_kinds, WeaponKind::M4, e),
{
}

/// `e` adds 200 rounds to the first weapon of kind `wanted` in
/// `weapon_kinds`, or is nothing when there is none.
pub open spec fn ammo_goes_to_first(weapon_kinds: Seq<WeaponKind>, wanted: WeaponKind, e: ItemEffect) -> bool {
    match e {
        ItemEffect::AddAmmo { weapon, amount } => {
            &&& amount == 200
            &&& weapon < weapon_kinds.len()
            &&& weapon_kinds[weapon as int] == wanted
            &&& forall|j: int| 0 <= j < weapon ==> weapon_kinds[j] != wanted
        },
        ItemEffect::Nothing => forall|j: int| 0 <= j < weapon_kinds.len() ==> weapon_kinds[j] != wanted,
        ItemEffect::Heal(_) => false,
    }
}

/// What each map marker name means: a name made of a marker's prefix and
/// anything after it is that marker, and a name with none of the prefixes
/// is scenery.
pub proof fn map_markers_by_prefix(rest: Seq<char>, name: Seq<char>)
    ensures
        spec_map_marker("JumpPad"@ + rest) == MapMarker::JumpPad,
        spec_map_marker("Medkit"@ + rest) == MapMarker::Item(ItemKind::Medkit),
        spec_map_marker("Ammo_Ak47"@ + rest) == MapMarker::Item(ItemKind::Ak47Ammo762),
        spec_map_marker("Ammo_M4"@ + rest) == MapMarker::Item(ItemKind::M4Ammo556),
        spec_map_marker("Ammo_Plasma"@ + rest) == MapMarker::Item(ItemKind::Plasma),
        spec_map_marker("SpawnPoint"@ + rest) == MapMarker::SpawnPoint,
        spec_map_marker("DeathZone"@ + rest) == MapMarker::DeathZone,
        !has_prefix(name, "JumpPad"@) && !has_prefix(name, "Medkit"@) && !has_prefix(name, "Ammo_"@)
            && !has_prefix(name, "SpawnPoint"@) && !has_prefix(name, "DeathZone"@)
            ==> spec_map_marker(name) == MapMarker::Scenery,
{
    reveal_strlit("JumpPad");
    reveal_strlit("Medkit");
    reveal_strlit("Ammo_Ak47");
    reveal_strlit("Ammo_M4");
    reveal_strlit("Ammo_Plasma");
    reveal_strlit("SpawnPoint");
    reveal_strlit("DeathZone");
    reveal_strlit("Ammo_");
    let names = seq!["JumpPad"@, "Medkit"@, "Ammo_Ak47"@, "Ammo_M4"@, "Ammo_Plasma"@, "SpawnPoint"@, "DeathZone"@];
    assert forall|a: int, b: int| 0 <= a < 7 && 0 <= b < 7 implies
        has_prefix(names[a] + rest, names[b]) == (a == b) by {
        prefixes_are_leading_characters(rest, names[a]);
        prefixes_are_leading_characters(names[a] + rest, names[b]);
        if a != b {
            let x = names[a] + rest;
            let y = names[b];
            if a <= 1 || b <= 1 || a >= 5 || b >= 5 {
                assert(x[0] != y[0]);
            } else {
                assert(x[5] != y[5]);
            }
        }
    }
    assert(names[0] == "JumpPad"@);
    assert(names[1] == "Medkit"@);
    assert(names[2] == "Ammo_Ak47"@);
    assert(names[3] == "Ammo_M4"@);
    assert(names[4] == "Ammo_Plasma"@);
    assert(names[5] == "SpawnPoint"@);
    assert(names[6] == "DeathZone"@);
    prefixes_are_leading_characters(name, "Ammo_"@);
    prefixes_are_leading_characters(name, "Ammo_Ak47"@);
    prefixes_are_leading_characters(name, "Ammo_M4"@);
    prefixes_are_leading_characters(name, "Ammo_Plasma"@);
}

/// A deathmatch's end conditions in terms of the frags: the frag limit is
/// reached when some actor has at least that many, one actor leads alone
/// when it has more than every other actor, and a tie for the most frags
/// means nobody leads alone.
pub proof fn match_end_conditions(frags: Seq<u32>, frag_limit: u32)
    ensures
        reaches_frag_limit(frags, frag_limit) <==> exists|i: int| 0 <= i < frags.len() && frags[i] >= frag_limit,
        forall|i: int| #![trigger frags[i]]
            0 <= i < frags.len() && (forall|k: int| 0 <= k < frags.len() && k != i ==> frags[k] < frags[i])
                ==> has_sole_leader(frags),
        (exists|i: int, j: int|
            0 <= i < frags.len() && 0 <= j < frags.len() && i != j && frags[i] == frags[j] && (forall|k: int|
                0 <= k < frags.len() ==> frags[k] <= frags[i])) ==> !has_sole_leader(frags),
{
    if exists|i: int, j: int|
        0 <= i < frags.len() && 0 <= j < frags.len() && i != j && frags[i] == frags[j] && (forall|k: int|
            0 <= k < frags.len() ==> frags[k] <= frags[i]) {
        let (i, j) = choose|i: int, j: int|
            0 <= i < frags.len() && 0 <= j < frags.len() && i != j && frags[i] == frags[j] && (forall|k: int|
                0 <= k < frags.len() ==> frags[k] <= frags[i]);
        assert forall|c: int| !leads_alone(frags, c) by {
            if 0 <= c < frags.len() {
                if c != i {
                    assert(frags[c] <= frags[i]);
                } else {
                    assert(frags[j] == frags[c]);
                }
            }
        }
    }
    assert forall|i: int| #![trigger frags[i]]
        0 <= i < frags.len() && (forall|k: int| 0 <= k < frags.len() && k != i ==> frags[k] < frags[i])
            implies has_sole_leader(frags) by {
        assert(leads_alone(frags, i));
    }
}

} // verus!

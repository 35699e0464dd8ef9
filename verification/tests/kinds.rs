use rusty_shooter::bot::{get_definition as bot_definition, BotKind};
use rusty_shooter::collision::CollisionGroups;
use rusty_shooter::item::{item_model, ItemKind};
use rusty_shooter::level::RespawnKind;
use rusty_shooter::projectile::{get_definition as projectile_definition, ProjectileKind};
use rusty_shooter::weapon::{Weapon, WeaponKind};

#[test]
fn bot_kind_ids_round_trip() {
    for kind in [BotKind::Mutant, BotKind::Parasite, BotKind::Maw] {
        assert_eq!(BotKind::new(kind.id()), Ok(kind));
    }
    assert_eq!(BotKind::Mutant.id(), 0);
    assert_eq!(BotKind::Parasite.id(), 1);
    assert_eq!(BotKind::Maw.id(), 2);
}

#[test]
fn bot_kind_rejects_unknown_ids() {
    assert_eq!(BotKind::new(3), Err("Invalid bot kind 3".to_string()));
    assert_eq!(BotKind::new(-1), Err("Invalid bot kind -1".to_string()));
    assert_eq!(
        BotKind::new(i32::MIN),
        Err("Invalid bot kind -2147483648".to_string())
    );
}

#[test]
fn weapon_kind_ids_round_trip() {
    for kind in [WeaponKind::M4, WeaponKind::Ak47, WeaponKind::PlasmaRifle] {
        assert_eq!(WeaponKind::new(kind.id()), Ok(kind));
    }
    assert_eq!(WeaponKind::PlasmaRifle.id(), 2);
    assert_eq!(WeaponKind::new(7), Err("unknown weapon kind 7".to_string()));
    assert_eq!(
        WeaponKind::new(u32::MAX),
        Err("unknown weapon kind 4294967295".to_string())
    );
}

#[test]
fn projectile_kind_ids_round_trip() {
    for kind in [ProjectileKind::Plasma, ProjectileKind::Bullet, ProjectileKind::Rocket] {
        assert_eq!(ProjectileKind::new(kind.id()), Ok(kind));
    }
    assert_eq!(ProjectileKind::Bullet.id(), 1);
    assert_eq!(
        ProjectileKind::new(10),
        Err("Invalid projectile kind id 10".to_string())
    );
}

#[test]
fn item_kind_ids_round_trip() {
    for kind in [
        ItemKind::Medkit,
        ItemKind::Plasma,
        ItemKind::Ak47Ammo762,
        ItemKind::M4Ammo556,
    ] {
        assert_eq!(ItemKind::from_id(kind.id()), Ok(kind));
    }
    assert_eq!(ItemKind::M4Ammo556.id(), 3);
    assert_eq!(ItemKind::from_id(4), Err("Unknown item kind 4".to_string()));
}

#[test]
fn respawn_kind_ids_round_trip() {
    assert_eq!(RespawnKind::from_id(RespawnKind::Bot.id()), Ok(RespawnKind::Bot));
    assert_eq!(RespawnKind::from_id(RespawnKind::Player.id()), Ok(RespawnKind::Player));
    assert_eq!(
        RespawnKind::from_id(2),
        Err("Invalid RespawnEntry type 2".to_string())
    );
}

#[test]
fn kind_names_match_debug_output() {
    assert_eq!(BotKind::Parasite.name(), format!("{:?}", BotKind::Parasite));
    assert_eq!(WeaponKind::PlasmaRifle.name(), "PlasmaRifle");
    assert_eq!(ItemKind::Ak47Ammo762.name(), "Ak47Ammo762");
}

#[test]
fn definitions_name_their_assets() {
    let maw = bot_definition(BotKind::Maw);
    assert_eq!(maw.kind, BotKind::Maw);
    assert_eq!(maw.model, "data/models/maw.fbx");
    assert_eq!(maw.spine, "Spine");
    let mutant = bot_definition(BotKind::Mutant);
    assert_eq!(mutant.weapon_hand_name, "Mutant:RightHand");
    assert_eq!(mutant.dead_animation, "data/animations/mutant/dead.fbx");

    let plasma = Weapon::get_definition(WeaponKind::PlasmaRifle);
    assert_eq!(plasma.ammo, 100);
    assert_eq!(plasma.projectile, ProjectileKind::Plasma);
    assert_eq!(plasma.shot_sound, "data/sounds/plasma_shot.ogg");
    assert_eq!(Weapon::get_definition(WeaponKind::M4).ammo, 200);
    assert_eq!(Weapon::get_definition(WeaponKind::Ak47).model, "data/models/ak47.FBX");

    assert_eq!(
        projectile_definition(ProjectileKind::Rocket).impact_sound,
        "data/sounds/explosion.ogg"
    );
    assert!(projectile_definition(ProjectileKind::Bullet).is_kinematic);

    assert_eq!(item_model(ItemKind::Plasma), "data/models/yellow_box.FBX");
}

#[test]
fn collision_group_bits() {
    assert_eq!(CollisionGroups::Generic.bits(), 1);
    assert_eq!(CollisionGroups::Projectile.bits(), 2);
    assert_eq!(CollisionGroups::Actor.bits(), 4);
    assert_eq!(CollisionGroups::All.bits(), isize::MAX);
}
